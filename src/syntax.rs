use vstd::prelude::*;

verus! {

/// One argument of an attribute: `value`, or `name: value` when named.
#[derive(Debug, Clone)]
pub struct AttributeArg {
    pub name: Option<String>,
    pub value: String,
}

pub struct AttributeArgView {
    pub name: Option<Seq<char>>,
    pub value: Seq<char>,
}

/// An attribute as written on a field: its path and its arguments.
#[derive(Debug, Clone)]
pub struct Attribute {
    pub path: String,
    pub args: Vec<AttributeArg>,
}

pub struct AttributeView {
    pub path: Seq<char>,
    pub args: Seq<AttributeArgView>,
}

pub open spec fn opt_view(o: Option<String>) -> Option<Seq<char>> {
    match o {
        Some(s) => Some(s@),
        None => None,
    }
}

impl View for AttributeArg {
    type V = AttributeArgView;

    open spec fn view(&self) -> AttributeArgView {
        AttributeArgView { name: opt_view(self.name), value: self.value@ }
    }
}

impl View for Attribute {
    type V = AttributeView;

    open spec fn view(&self) -> AttributeView {
        AttributeView { path: self.path@, args: self.args@.map_values(|a: AttributeArg| a@) }
    }
}

/// The views of a list of attributes.
pub open spec fn attribute_views(s: Seq<Attribute>) -> Seq<AttributeView> {
    s.map_values(|a: Attribute| a@)
}

/// One field of a record type: its name, its declared type text and its attributes.
#[derive(Debug, Clone)]
pub struct Member {
    pub name: String,
    pub ty: String,
    pub attributes: Vec<Attribute>,
}

/// A record type: its name, its fields in declaration order and its own attributes.
#[derive(Debug, Clone)]
pub struct Struct {
    pub name: String,
    pub members: Vec<Member>,
    pub attributes: Vec<Attribute>,
}

/// A field is a key when it carries a bare `key` attribute, without arguments.
pub open spec fn is_key_member(m: Member) -> bool {
    exists|j: int|
        0 <= j < m.attributes@.len() && m.attributes@[j].path@ == "key"@
            && m.attributes@[j].args@.len() == 0
}

impl Member {
    /// Whether the field carries a bare attribute with path `path`.
    pub fn has_name_only_attribute(&self, path: &str) -> (r: bool)
        ensures
            r == exists|j: int|
                0 <= j < self.attributes@.len() && self.attributes@[j].path@ == path@
                    && self.attributes@[j].args@.len() == 0,
    {
        let mut i: usize = 0;
        while i < self.attributes.len()
            invariant
                i <= self.attributes@.len(),
                forall|j: int|
                    0 <= j < i ==> !(self.attributes@[j].path@ == path@
                        && self.attributes@[j].args@.len() == 0),
            decreases self.attributes@.len() - i,
        {
            let a = &self.attributes[i];
            if crate::text::is_text(&a.path, path) && a.args.len() == 0 {
                return true;
            }
            i = i + 1;
        }
        false
    }

    /// Whether the field is a key field.
    pub fn is_key(&self) -> (r: bool)
        ensures
            r == is_key_member(*self),
    {
        self.has_name_only_attribute("key")
    }
}

} // verus!
