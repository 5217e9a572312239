use vstd::prelude::*;
use crate::error::{TableError, TableResult};
use crate::syntax::{Attribute, AttributeView, AttributeArgView, attribute_views, opt_view};
use crate::text::is_text;

verus! {

/// What the recognised attributes of a field say, with the attributes that
/// pass through unchanged.
pub struct ExtractState {
    pub type_mod: Seq<AttributeView>,
    pub name: Option<Seq<char>>,
    pub id: Option<Seq<char>>,
    pub residual: Seq<AttributeView>,
}

pub open spec fn empty_state() -> ExtractState {
    ExtractState { type_mod: Seq::empty(), name: None, id: None, residual: Seq::empty() }
}

/// The attribute that an `index` directive leaves behind.
pub open spec fn index_attribute() -> AttributeView {
    AttributeView { path: "index"@, args: Seq::<AttributeArgView>::empty() }
}

/// Exactly one argument, and it carries no name.
pub open spec fn single_unnamed(a: AttributeView) -> bool {
    a.args.len() == 1 && a.args[0].name is None
}

/// The effect of one attribute, met in declaration order.
pub open spec fn extract_step(st: ExtractState, a: AttributeView, type_mod_paths: Seq<Seq<char>>)
    -> Result<ExtractState, TableError>
{
    if type_mod_paths.contains(a.path) {
        Ok(ExtractState { type_mod: st.type_mod.push(a), ..st })
    } else if a.path == "name"@ {
        if single_unnamed(a) {
            Ok(ExtractState { name: Some(a.args[0].value), ..st })
        } else {
            Err(TableError::AttributeArityError)
        }
    } else if a.path == "id"@ {
        if single_unnamed(a) {
            Ok(ExtractState { id: Some(a.args[0].value), ..st })
        } else {
            Err(TableError::AttributeArityError)
        }
    } else if a.path == "index"@ {
        Ok(ExtractState { residual: st.residual.push(index_attribute()), ..st })
    } else {
        Ok(ExtractState { residual: st.residual.push(a), ..st })
    }
}

/// The attributes of a field applied one after another; the first failure stops it.
pub open spec fn extract_spec(attrs: Seq<AttributeView>, type_mod_paths: Seq<Seq<char>>)
    -> Result<ExtractState, TableError>
    decreases attrs.len(),
{
    if attrs.len() == 0 {
        Ok(empty_state())
    } else {
        match extract_spec(attrs.drop_last(), type_mod_paths) {
            Err(e) => Err(e),
            Ok(st) => extract_step(st, attrs.last(), type_mod_paths),
        }
    }
}

/// Once a prefix of the attributes fails, every longer prefix fails the same way.
proof fn lemma_error_persists(all: Seq<AttributeView>, paths: Seq<Seq<char>>, i: int, k: int)
    requires
        0 <= i <= k <= all.len(),
        extract_spec(all.take(i), paths) is Err,
    ensures
        extract_spec(all.take(k), paths) == extract_spec(all.take(i), paths),
    decreases k - i,
{
    if k > i {
        lemma_error_persists(all, paths, i, k - 1);
        assert(all.take(k).drop_last() =~= all.take(k - 1));
    }
}

/// Whether `path` is one of the type-modifier directive paths.
fn is_type_mod_path(type_mod_paths: &Vec<String>, path: &String) -> (r: bool)
    ensures
        r == crate::text::string_views(type_mod_paths@).contains(path@),
{
    let ghost paths = crate::text::string_views(type_mod_paths@);
    let mut j: usize = 0;
    while j < type_mod_paths.len()
        invariant
            j <= type_mod_paths@.len(),
            paths == crate::text::string_views(type_mod_paths@),
            forall|k: int| 0 <= k < j ==> paths[k] != path@,
        decreases type_mod_paths@.len() - j,
    {
        if *path == type_mod_paths[j] {
            assert(paths[j as int] == path@);
            return true;
        }
        j = j + 1;
    }
    false
}

/// The overrides that a field's attributes set.
pub struct ColumnAttributes {
    /// The type-modifier directives, in the order met.
    pub type_mod: Vec<Attribute>,
    /// The display-name override.
    pub name: Option<String>,
    /// The id override, as the literal written in `id(...)`.
    pub id: Option<String>,
}

impl ColumnAttributes {
    pub open spec fn state(&self, residual: Seq<Attribute>) -> ExtractState {
        ExtractState {
            type_mod: attribute_views(self.type_mod@),
            name: opt_view(self.name),
            id: opt_view(self.id),
            residual: attribute_views(residual),
        }
    }

    /// The single unnamed argument of a directive.
    fn single_unnamed_arg(attribute: Attribute) -> (r: TableResult<String>)
        ensures
            single_unnamed(attribute@) ==> (r matches Ok(s) && s@ == attribute@.args[0].value),
            !single_unnamed(attribute@) ==> r == Err::<String, TableError>(
                TableError::AttributeArityError,
            ),
    {
        let mut args = attribute.args;
        if args.len() == 1 && args[0].name.is_none() {
            let arg = args.remove(0);
            Ok(arg.value)
        } else {
            Err(TableError::AttributeArityError)
        }
    }

    /// Applies one attribute; what is not recognised goes to `residual`.
    pub fn parse_attribute(
        &mut self,
        residual: &mut Vec<Attribute>,
        attribute: Attribute,
        type_mod_paths: &Vec<String>,
    ) -> (r: TableResult<()>)
        ensures
            match extract_step(old(self).state(old(residual)@), attribute@, crate::text::string_views(type_mod_paths@)) {
                Ok(st) => r is Ok && final(self).state(final(residual)@) == st,
                Err(e) => r == Err::<(), TableError>(e),
            },
    {
        let ghost a = attribute@;
        if is_type_mod_path(type_mod_paths, &attribute.path) {
            self.type_mod.push(attribute);
            assert(attribute_views(self.type_mod@) =~= attribute_views(old(self).type_mod@).push(a));
            return Ok(());
        }
        if is_text(&attribute.path, "name") {
            let v = Self::single_unnamed_arg(attribute)?;
            self.name = Some(v);
            Ok(())
        } else if is_text(&attribute.path, "id") {
            let v = Self::single_unnamed_arg(attribute)?;
            self.id = Some(v);
            Ok(())
        } else if is_text(&attribute.path, "index") {
            let idx = Attribute { path: "index".to_owned(), args: Vec::new() };
            assert(idx@.args =~= Seq::<AttributeArgView>::empty());
            residual.push(idx);
            assert(attribute_views(residual@) =~= attribute_views(old(residual)@).push(index_attribute()));
            Ok(())
        } else {
            residual.push(attribute);
            assert(attribute_views(residual@) =~= attribute_views(old(residual)@).push(a));
            Ok(())
        }
    }

    /// Applies a field's attributes in order: the overrides they set, and the
    /// attributes that pass through.
    pub fn extract(attributes: Vec<Attribute>, type_mod_paths: &Vec<String>) -> (r: TableResult<
        (ColumnAttributes, Vec<Attribute>),
    >)
        ensures
            match extract_spec(attribute_views(attributes@), crate::text::string_views(type_mod_paths@)) {
                Ok(st) => r matches Ok((ca, res)) && ca.state(res@) == st,
                Err(e) => r == Err::<(ColumnAttributes, Vec<Attribute>), TableError>(e),
            },
    {
        let ghost paths = crate::text::string_views(type_mod_paths@);
        let ghost all = attribute_views(attributes@);
        let mut ca = ColumnAttributes { type_mod: Vec::new(), name: None, id: None };
        let mut residual: Vec<Attribute> = Vec::new();
        let mut rest = attributes;
        let ghost mut i: int = 0;
        assert(attribute_views(ca.type_mod@) =~= Seq::<AttributeView>::empty());
        assert(attribute_views(residual@) =~= Seq::<AttributeView>::empty());
        assert(all.take(0) =~= Seq::<AttributeView>::empty());
        while rest.len() > 0
            invariant
                0 <= i <= all.len(),
                all.len() == attributes@.len(),
                all == attribute_views(attributes@),
                paths == crate::text::string_views(type_mod_paths@),
                rest@ == attributes@.subrange(i, attributes@.len() as int),
                extract_spec(all.take(i), paths) == Ok::<ExtractState, TableError>(ca.state(residual@)),
            decreases rest@.len(),
        {
            let a = rest.remove(0);
            assert(a == attributes@[i]);
            assert(all.take(i + 1).drop_last() =~= all.take(i));
            assert(all.take(i + 1).last() == a@);
            let step = ca.parse_attribute(&mut residual, a, type_mod_paths);
            match step {
                Ok(()) => {},
                Err(e) => {
                    assert(extract_spec(all.take(i + 1), paths) == Err::<ExtractState, TableError>(e));
                    proof {
                        lemma_error_persists(all, paths, i + 1, all.len() as int);
                        assert(all.take(all.len() as int) =~= all);
                    }
                    return Err(e);
                },
            }
            proof {
                i = i + 1;
            }
            assert(rest@ =~= attributes@.subrange(i, attributes@.len() as int));
        }
        assert(all.take(i) =~= all);
        Ok((ca, residual))
    }
}

} // verus!
