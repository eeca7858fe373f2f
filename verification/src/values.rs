//! The dynamically-typed values exchanged with the configuration language,
//! and the script-visible errors of the attribute surface.

use vstd::prelude::*;

verus! {

/// Ghost-level form of an attribute value: string content as a character
/// sequence.
pub enum AttrV {
    Null,
    Bool(bool),
    Int(i64),
    Str(Seq<char>),
}

/// A dynamically-typed attribute value, as read from or written by a
/// configuration script.
#[derive(Debug)]
pub enum AttrValue {
    Null,
    Bool(bool),
    Int(i64),
    Str(String),
}

impl Clone for AttrValue {
    fn clone(&self) -> (r: Self)
        ensures
            r@ == self@,
    {
        match self {
            AttrValue::Null => AttrValue::Null,
            AttrValue::Bool(b) => AttrValue::Bool(*b),
            AttrValue::Int(i) => AttrValue::Int(*i),
            AttrValue::Str(s) => AttrValue::Str(s.clone()),
        }
    }
}

impl View for AttrValue {
    type V = AttrV;

    open spec fn view(&self) -> AttrV {
        match self {
            AttrValue::Null => AttrV::Null,
            AttrValue::Bool(b) => AttrV::Bool(*b),
            AttrValue::Int(i) => AttrV::Int(*i),
            AttrValue::Str(s) => AttrV::Str(s@),
        }
    }
}

/// Truthiness of an attribute value: null is false, an integer is true
/// unless zero, a string is true unless empty.
pub open spec fn truthy_view(v: AttrV) -> bool {
    match v {
        AttrV::Null => false,
        AttrV::Bool(b) => b,
        AttrV::Int(i) => i != 0,
        AttrV::Str(s) => s.len() != 0,
    }
}

impl AttrValue {
    /// Coerce this value to a boolean.
    pub fn truthy(&self) -> (r: bool)
        ensures
            r == truthy_view(self@),
    {
        match self {
            AttrValue::Null => false,
            AttrValue::Bool(b) => *b,
            AttrValue::Int(i) => *i != 0,
            AttrValue::Str(s) => !s.as_str().is_empty(),
        }
    }
}

/// Character-sequence equality of two string slices, decided by value.
pub(crate) fn str_eq(a: &str, b: &str) -> (r: bool)
    ensures
        r == (a@ == b@),
{
    a.to_owned() == b.to_owned()
}

/// A script-visible failure of an attribute read or write.
#[derive(Debug, Clone)]
pub enum ValueError {
    /// The value is not a well-formed placement location: neither one of
    /// the accepted strings (`"default"`, `"in-memory"`,
    /// `"filesystem-relative:"` plus a prefix) nor, for fields that accept
    /// it, null. Carries the offending value.
    DecodeError { value: AttrValue },
    /// The attribute is not recognized for this operation on this wrapper
    /// kind.
    UnsupportedAttribute { kind: String, attribute: String },
    /// A collection-context attribute was written while the wrapper holds
    /// no context.
    MissingContext { kind: String, attribute: String },
    /// Source text could not be resolved from its underlying storage.
    SourceResolutionError { message: String },
    /// Resolved source bytes are not valid decodable text.
    TextDecodingError,
}

} // verus!
