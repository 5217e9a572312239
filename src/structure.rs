use vstd::prelude::*;
use vstd::string::StringExecFns;
use crate::column::{Column, FieldFacts, column_error, column_matches};
use crate::error::{TableError, TableResult};
use crate::primary::{Primary, primary_convertible, primary_matches};
use crate::syntax::{Attribute, Member, Struct, is_key_member};
use crate::text::string_views;

verus! {

/// How a record is identified.
#[derive(Debug, Clone)]
pub enum KeyType {
    /// One key field of a primary-eligible type, taken out of the columns.
    Primary(Primary),
    /// This many leading key columns, kept among the columns.
    Custom(usize),
}

/// The schema of one record type.
#[derive(Debug, Clone)]
pub struct TableStructure {
    pub name: String,
    pub key: KeyType,
    pub columns: Vec<Column>,
    pub attributes: Vec<Attribute>,
    pub impl_name: String,
    pub columns_mod_name: String,
}

/// The key flags form a leading run of length `n`: a flag is set exactly at
/// the positions below `n`.
pub open spec fn is_key_prefix(flags: Seq<bool>, n: int) -> bool {
    &&& 0 <= n <= flags.len()
    &&& forall|i: int| 0 <= i < flags.len() ==> flags[i] == (i < n)
}

pub open spec fn column_key_flags(cols: Seq<Column>) -> Seq<bool> {
    cols.map_values(|c: Column| c.key)
}

pub open spec fn member_key_flags(ms: Seq<Member>) -> Seq<bool> {
    ms.map_values(|m: Member| is_key_member(m))
}

/// The length of the leading run of key flags, where the key flags form one.
pub open spec fn leading_keys(flags: Seq<bool>) -> Option<nat> {
    if exists|n: int| is_key_prefix(flags, n) {
        Some((choose|n: int| is_key_prefix(flags, n)) as nat)
    } else {
        None
    }
}

/// Counts the leading key columns, and fails unless the key columns are
/// exactly the leading ones.
pub fn get_keys_index(columns: &Vec<Column>) -> (r: TableResult<usize>)
    ensures
        match r {
            Ok(n) => is_key_prefix(column_key_flags(columns@), n as int),
            Err(e) => e == TableError::KeysNotFirst && forall|n: int|
                !is_key_prefix(column_key_flags(columns@), n),
        },
{
    let ghost flags = column_key_flags(columns@);
    let mut position: usize = 0;
    let mut i: usize = 0;
    while i < columns.len()
        invariant
            flags == column_key_flags(columns@),
            position <= i <= columns@.len(),
            forall|j: int| 0 <= j < i ==> flags[j] == (j < position),
        decreases columns@.len() - i,
    {
        if columns[i].key {
            if position == i {
                position = position + 1;
            } else {
                proof {
                    assert(flags[i as int]);
                    assert(!flags[position as int]);
                    assert forall|n: int| !is_key_prefix(flags, n) by {
                        if is_key_prefix(flags, n) {
                            assert(flags[i as int] == (i < n));
                            assert(flags[position as int] == (position < n));
                        }
                    }
                }
                return Err(TableError::KeysNotFirst);
            }
        }
        i = i + 1;
    }
    Ok(position)
}

/// The first failure met while building the columns of the first `i` fields.
pub open spec fn first_column_error(
    ms: Seq<Member>,
    fs: Seq<FieldFacts>,
    paths: Seq<Seq<char>>,
    i: int,
) -> Option<TableError>
    decreases i,
{
    if i <= 0 {
        None
    } else {
        match first_column_error(ms, fs, paths, i - 1) {
            Some(e) => Some(e),
            None => column_error(ms[i - 1], fs[i - 1], paths),
        }
    }
}

/// `cs` are the columns built from the fields from position `from` on.
pub open spec fn columns_match(
    cs: Seq<Column>,
    ms: Seq<Member>,
    struct_name: Seq<char>,
    fs: Seq<FieldFacts>,
    paths: Seq<Seq<char>>,
    from: int,
) -> bool {
    &&& cs.len() + from == ms.len()
    &&& forall|i: int|
        0 <= i < cs.len() ==> column_matches(cs[i], ms[i + from], struct_name, fs[i + from], paths)
}

/// Whether the first field is promoted: one leading key, of a type on the
/// primary list.
pub open spec fn promotes(ms: Seq<Member>, primary_types: Seq<Seq<char>>) -> bool {
    leading_keys(member_key_flags(ms)) == Some(1nat) && primary_types.contains(ms[0].ty@)
}

proof fn lemma_first_error_persists(
    ms: Seq<Member>,
    fs: Seq<FieldFacts>,
    paths: Seq<Seq<char>>,
    i: int,
    k: int,
)
    requires
        0 <= i <= k,
        first_column_error(ms, fs, paths, i) is Some,
    ensures
        first_column_error(ms, fs, paths, k) == first_column_error(ms, fs, paths, i),
    decreases k - i,
{
    if k > i {
        lemma_first_error_persists(ms, fs, paths, i, k - 1);
    }
}

proof fn lemma_leading_keys(flags: Seq<bool>, n: int)
    requires
        is_key_prefix(flags, n),
    ensures
        leading_keys(flags) == Some(n as nat),
{
    let m = choose|m: int| is_key_prefix(flags, m);
    if m < n {
        assert(flags[m] == (m < n));
    } else if n < m {
        assert(flags[n] == (n < m));
    }
}

/// Builds the columns of all fields, stopping at the first failure.
fn build_columns(
    members: Vec<Member>,
    struct_name: &String,
    facts: Vec<FieldFacts>,
    type_mod_paths: &Vec<String>,
) -> (r: TableResult<Vec<Column>>)
    requires
        facts@.len() == members@.len(),
    ensures
        match first_column_error(members@, facts@, string_views(type_mod_paths@), members@.len() as int) {
            Some(e) => r == Err::<Vec<Column>, TableError>(e),
            None => r matches Ok(cs) && columns_match(cs@, members@, struct_name@, facts@, string_views(type_mod_paths@), 0),
        },
{
    let ghost paths = string_views(type_mod_paths@);
    let ghost ms = members@;
    let ghost fs = facts@;
    let mut rest_m = members;
    let mut rest_f = facts;
    let mut cols: Vec<Column> = Vec::new();
    while rest_m.len() > 0
        invariant
            fs.len() == ms.len(),
            ms == members@,
            fs == facts@,
            paths == string_views(type_mod_paths@),
            cols@.len() <= ms.len(),
            rest_m@ == ms.subrange(cols@.len() as int, ms.len() as int),
            rest_f@ == fs.subrange(cols@.len() as int, fs.len() as int),
            first_column_error(ms, fs, paths, cols@.len() as int) is None,
            forall|j: int| 0 <= j < cols@.len() ==> column_matches(cols@[j], ms[j], struct_name@, fs[j], paths),
        decreases rest_m@.len(),
    {
        let ghost i = cols@.len() as int;
        let m = rest_m.remove(0);
        let f = rest_f.remove(0);
        assert(m == ms[i] && f == fs[i]);
        match Column::iextract_with(m, struct_name, f, type_mod_paths) {
            Ok(c) => {
                cols.push(c);
            },
            Err(e) => {
                proof {
                    assert(column_error(ms[i], fs[i], paths) == Some(e));
                    assert(first_column_error(ms, fs, paths, i + 1) == Some(e));
                    lemma_first_error_persists(ms, fs, paths, i + 1, ms.len() as int);
                    assert(first_column_error(ms, fs, paths, ms.len() as int) == Some(e));
                }
                return Err(e);
            },
        }
        assert(rest_m@ =~= ms.subrange(cols@.len() as int, ms.len() as int));
        assert(rest_f@ =~= fs.subrange(cols@.len() as int, fs.len() as int));
    }
    Ok(cols)
}

/// Whether `ty` is on the list of primary-eligible type names.
fn is_primary_type(primary_types: &Vec<String>, ty: &String) -> (r: bool)
    ensures
        r == string_views(primary_types@).contains(ty@),
{
    let ghost names = string_views(primary_types@);
    let mut j: usize = 0;
    while j < primary_types.len()
        invariant
            j <= primary_types@.len(),
            names == string_views(primary_types@),
            forall|k: int| 0 <= k < j ==> names[k] != ty@,
        decreases primary_types@.len() - j,
    {
        if *ty == primary_types[j] {
            assert(names[j as int] == ty@);
            return true;
        }
        j = j + 1;
    }
    false
}

impl TableStructure {
    /// Under `Custom(n)` the key columns are exactly the first `n`; under
    /// `Primary` no column is a key.
    pub open spec fn wf(&self) -> bool {
        match self.key {
            KeyType::Primary(_) => forall|i: int|
                0 <= i < self.columns@.len() ==> !(#[trigger] self.columns@[i]).key,
            KeyType::Custom(n) => is_key_prefix(column_key_flags(self.columns@), n as int),
        }
    }

    /// Assembles the schema of a record type: builds each field's column,
    /// checks that the key fields lead, and promotes a single leading key of a
    /// primary-eligible type. `facts[i]` holds the collaborators' results for
    /// field `i`.
    pub fn iextract(
        item: Struct,
        facts: Vec<FieldFacts>,
        type_mod_paths: &Vec<String>,
        primary_types: &Vec<String>,
    ) -> (r: TableResult<TableStructure>)
        requires
            facts@.len() == item.members@.len(),
        ensures
            extract_outcome(
                r,
                item.members@,
                item.name@,
                facts@,
                string_views(type_mod_paths@),
                string_views(primary_types@),
            ),
            r matches Ok(t) ==> (t.name@ == item.name@ && t.impl_name@ == item.name@ + "Structure"@
                && t.columns_mod_name@ == item.name@ + "Column"@ && t.attributes@.len() == 0
                && t.wf()),
    {
        let ghost ms = item.members@;
        let ghost fs = facts@;
        let ghost paths = string_views(type_mod_paths@);
        let first_primary = item.members.len() > 0 && is_primary_type(primary_types, &item.members[0].ty);
        let Struct { name, members, .. } = item;
        let mut columns = match build_columns(members, &name, facts, type_mod_paths) {
            Ok(cs) => cs,
            Err(e) => return Err(e),
        };
        proof {
            assert(column_key_flags(columns@) =~= member_key_flags(ms));
        }
        let keys_index = match get_keys_index(&columns) {
            Ok(k) => k,
            Err(e) => {
                assert(leading_keys(member_key_flags(ms)) is None);
                return Err(e);
            },
        };
        proof {
            lemma_leading_keys(member_key_flags(ms), keys_index as int);
        }
        let impl_name = name.clone().concat("Structure");
        let columns_mod_name = name.clone().concat("Column");
        let ghost flags = member_key_flags(ms);
        let key = if keys_index == 1 && first_primary {
            let c = columns.remove(0);
            assert forall|i: int| 0 <= i < columns@.len() implies !(#[trigger] columns@[i]).key by {
                assert(columns@[i].key == flags[i + 1]);
            }
            match Primary::try_from(c) {
                Ok(p) => KeyType::Primary(p),
                Err(e) => return Err(e),
            }
        } else {
            assert(column_key_flags(columns@) =~= flags);
            KeyType::Custom(keys_index)
        };
        Ok(TableStructure { name, key, columns, attributes: Vec::new(), impl_name, columns_mod_name })
    }
}

/// What assembly yields from the fields `ms` of the type named `name`.
pub open spec fn extract_outcome(
    r: TableResult<TableStructure>,
    ms: Seq<Member>,
    name: Seq<char>,
    fs: Seq<FieldFacts>,
    paths: Seq<Seq<char>>,
    primary_types: Seq<Seq<char>>,
) -> bool {
    match first_column_error(ms, fs, paths, ms.len() as int) {
        Some(e) => r == Err::<TableStructure, TableError>(e),
        None => match leading_keys(member_key_flags(ms)) {
            None => r == Err::<TableStructure, TableError>(TableError::KeysNotFirst),
            Some(k) => if promotes(ms, primary_types) {
                if !primary_convertible(fs[0].type_def->Some_0) {
                    r == Err::<TableStructure, TableError>(TableError::PrimaryConversionError)
                } else {
                    r matches Ok(t) && t.key matches KeyType::Primary(p)
                        && promoted_from(p, ms[0], name, fs[0], paths)
                        && columns_match(t.columns@, ms, name, fs, paths, 1)
                }
            } else {
                r matches Ok(t) && t.key matches KeyType::Custom(n) && n == k
                    && columns_match(t.columns@, ms, name, fs, paths, 0)
            },
        },
    }
}

/// `p` is the promoted form of the column built from field `m`.
pub open spec fn promoted_from(
    p: Primary,
    m: Member,
    struct_name: Seq<char>,
    f: FieldFacts,
    paths: Seq<Seq<char>>,
) -> bool {
    exists|c: Column| column_matches(c, m, struct_name, f, paths) && primary_matches(p, c)
}

/// A table gets a primary field exactly when there is one leading key field
/// and its type is primary-eligible; otherwise its key is `Custom(k)`, with `k`
/// the number of leading key fields.
pub proof fn lemma_promotion_rule(
    t: TableStructure,
    ms: Seq<Member>,
    name: Seq<char>,
    fs: Seq<FieldFacts>,
    paths: Seq<Seq<char>>,
    primary_types: Seq<Seq<char>>,
)
    requires
        extract_outcome(Ok(t), ms, name, fs, paths, primary_types),
    ensures
        (t.key is Primary) == promotes(ms, primary_types),
        t.key matches KeyType::Custom(k) ==> leading_keys(member_key_flags(ms)) == Some(k as nat),
        leading_keys(member_key_flags(ms)) is Some,
{
}

/// The key fields must lead: where a key field follows a non-key field,
/// assembly fails with `KeysNotFirst`, once every column has been built.
pub proof fn lemma_keys_first(
    r: TableResult<TableStructure>,
    ms: Seq<Member>,
    name: Seq<char>,
    fs: Seq<FieldFacts>,
    paths: Seq<Seq<char>>,
    primary_types: Seq<Seq<char>>,
    i: int,
    j: int,
)
    requires
        extract_outcome(r, ms, name, fs, paths, primary_types),
        first_column_error(ms, fs, paths, ms.len() as int) is None,
        0 <= i < j < ms.len(),
        !is_key_member(ms[i]),
        is_key_member(ms[j]),
    ensures
        r == Err::<TableStructure, TableError>(TableError::KeysNotFirst),
{
    let flags = member_key_flags(ms);
    assert forall|n: int| !is_key_prefix(flags, n) by {
        if is_key_prefix(flags, n) {
            assert(flags[i] == (i < n));
            assert(flags[j] == (j < n));
        }
    }
}

} // verus!
