//! The placement-location codec.
//!
//! A resource placement is either concrete (in memory, or under a
//! filesystem prefix) or absent ("default" placement). Concrete locations
//! encode to and decode from a canonical string form losslessly; the
//! absent state decodes from both the string `"default"` and null, and
//! encodes to null.

use vstd::prelude::*;
use vstd::string::*;

use crate::values::{str_eq, AttrV, AttrValue, ValueError};

verus! {

/// Ghost-level form of a concrete placement location.
pub enum LocationView {
    InMemory,
    RelativePath(Seq<char>),
}

/// A concrete placement location: where a collected resource is loaded
/// from at run time.
#[derive(Debug, Clone)]
pub enum ConcreteResourceLocation {
    /// The resource is loaded from memory.
    InMemory,
    /// The resource is loaded from a path relative to some base.
    RelativePath(String),
}

impl View for ConcreteResourceLocation {
    type V = LocationView;

    open spec fn view(&self) -> LocationView {
        match self {
            ConcreteResourceLocation::InMemory => LocationView::InMemory,
            ConcreteResourceLocation::RelativePath(p) => LocationView::RelativePath(p@),
        }
    }
}

/// The canonical string form of a concrete location.
pub open spec fn encode_location(l: LocationView) -> Seq<char> {
    match l {
        LocationView::InMemory => "in-memory"@,
        LocationView::RelativePath(p) => "filesystem-relative:"@ + p,
    }
}

/// The canonical form of an optional location: null when absent.
pub open spec fn encode_optional_location(l: Option<LocationView>) -> AttrV {
    match l {
        None => AttrV::Null,
        Some(c) => AttrV::Str(encode_location(c)),
    }
}

/// Decoding of a location string. The outer `None` is a decode error;
/// `Some(None)` is the absent ("default") reading; `Some(Some(l))` is a
/// concrete location.
pub open spec fn decode_location_str(s: Seq<char>) -> Option<Option<LocationView>> {
    if s == "default"@ {
        Some(None)
    } else if s == "in-memory"@ {
        Some(Some(LocationView::InMemory))
    } else if "filesystem-relative:"@.len() <= s.len() && s.subrange(
        0,
        "filesystem-relative:"@.len() as int,
    ) == "filesystem-relative:"@ {
        Some(Some(LocationView::RelativePath(s.skip("filesystem-relative:"@.len() as int))))
    } else {
        None
    }
}

/// Decoding of an arbitrary attribute value as a location: strings are
/// decoded as above, null reads as absent, and any other value is a
/// decode error.
pub open spec fn decode_attr_value(v: AttrValue) -> Option<Option<LocationView>> {
    match v {
        AttrValue::Null => Some(None),
        AttrValue::Str(s) => decode_location_str(s@),
        _ => None,
    }
}

/// An optional placement location: the decoded form of a location string
/// or null.
#[derive(Debug, Clone)]
pub struct OptionalResourceLocation {
    inner: Option<ConcreteResourceLocation>,
}

impl View for OptionalResourceLocation {
    type V = Option<LocationView>;

    closed spec fn view(&self) -> Option<LocationView> {
        match self.inner {
            None => None,
            Some(l) => Some(l@),
        }
    }
}

impl OptionalResourceLocation {
    /// The absent location.
    pub fn absent() -> (r: Self)
        ensures
            r@ is None,
    {
        OptionalResourceLocation { inner: None }
    }

    /// Wrap a concrete location.
    pub fn from_concrete(l: ConcreteResourceLocation) -> (r: Self)
        ensures
            r@ == Some(l@),
    {
        OptionalResourceLocation { inner: Some(l) }
    }

    /// Unwrap into the underlying optional concrete location.
    pub fn into_inner(self) -> (r: Option<ConcreteResourceLocation>)
        ensures
            (r is None <==> self@ is None),
            r matches Some(l) ==> self@ == Some(l@),
    {
        self.inner
    }

    /// Decode a location from its string form.
    pub fn try_from_str(s: &str) -> (r: Result<Self, ValueError>)
        ensures
            decode_location_str(s@) matches Some(inner) ==> (r matches Ok(o) && o@ == inner),
            decode_location_str(s@) is None ==> (r matches Err(e) && e matches
                ValueError::DecodeError { value } && value@ == AttrV::Str(s@)),
    {
        proof {
            reveal_strlit("default");
            reveal_strlit("in-memory");
            reveal_strlit("filesystem-relative:");
        }
        if str_eq(s, "default") {
            Ok(OptionalResourceLocation { inner: None })
        } else if str_eq(s, "in-memory") {
            Ok(OptionalResourceLocation { inner: Some(ConcreteResourceLocation::InMemory) })
        } else {
            let n: usize = s.unicode_len();
            if n >= 20 && str_eq(s.substring_char(0, 20), "filesystem-relative:") {
                let prefix = s.substring_char(20, n).to_owned();
                Ok(
                    OptionalResourceLocation {
                        inner: Some(ConcreteResourceLocation::RelativePath(prefix)),
                    },
                )
            } else {
                Err(ValueError::DecodeError { value: AttrValue::Str(s.to_owned()) })
            }
        }
    }

    /// Decode a location from an attribute value: strings are parsed,
    /// null reads as absent, anything else is rejected.
    pub fn try_from_value(v: &AttrValue) -> (r: Result<Self, ValueError>)
        ensures
            decode_attr_value(*v) matches Some(inner) ==> (r matches Ok(o) && o@ == inner),
            decode_attr_value(*v) is None ==> (r matches Err(e) && e matches
                ValueError::DecodeError { value } && value@ == v@),
    {
        match v {
            AttrValue::Null => Ok(OptionalResourceLocation { inner: None }),
            AttrValue::Str(s) => Self::try_from_str(s.as_str()),
            _ => Err(ValueError::DecodeError { value: v.clone() }),
        }
    }

    /// Encode back to the attribute-value form: null when absent.
    pub fn to_attr_value(&self) -> (r: AttrValue)
        ensures
            r@ == encode_optional_location(self@),
    {
        match &self.inner {
            None => AttrValue::Null,
            Some(l) => AttrValue::Str(encode_concrete(l)),
        }
    }
}

/// Encode a concrete location to its canonical string form.
pub fn encode_concrete(l: &ConcreteResourceLocation) -> (r: String)
    ensures
        r@ == encode_location(l@),
{
    match l {
        ConcreteResourceLocation::InMemory => String::from_str("in-memory"),
        ConcreteResourceLocation::RelativePath(p) => String::from_str(
            "filesystem-relative:",
        ).concat(p.as_str()),
    }
}

/// Law: the codec is lossless for every concrete location. Encoding a
/// concrete location and decoding the result gives the location back;
/// in particular a concrete location never decodes as absent.
pub proof fn lemma_location_round_trip(l: LocationView)
    ensures
        decode_location_str(encode_location(l)) == Some(Some(l)),
{
    reveal_strlit("default");
    reveal_strlit("in-memory");
    reveal_strlit("filesystem-relative:");
    match l {
        LocationView::InMemory => {
            assert(encode_location(l) == "in-memory"@);
            assert("in-memory"@ != "default"@);
        },
        LocationView::RelativePath(p) => {
            let e = encode_location(l);
            assert(e.len() == 20 + p.len());
            assert(e != "default"@);
            assert(e != "in-memory"@);
            assert(e.subrange(0, 20) =~= "filesystem-relative:"@);
            assert(e.skip(20) =~= p);
        },
    }
}

/// Law: the absent reading has exactly two sources. Null and the string
/// `"default"` both decode to the absent location.
pub proof fn lemma_decode_absent(v: AttrValue)
    requires
        v is Null || (v matches AttrValue::Str(s) && s@ == "default"@),
    ensures
        decode_attr_value(v) == Some(None::<LocationView>),
{
}

} // verus!
