//! The collection context and its shared attribute surface.
//!
//! A collection context is the optional configuration record attached to a
//! resource wrapper: whether the resource is collected, where it is placed,
//! and which derived forms (source text, bytecode at three optimization
//! levels) are produced. Context-bearing wrapper kinds expose it through a
//! closed set of attribute names, read and written here.

use vstd::prelude::*;
use vstd::string::*;

use crate::location::{
    decode_attr_value, encode_location, ConcreteResourceLocation, OptionalResourceLocation,
};
use crate::values::{str_eq, truthy_view, AttrV, AttrValue, ValueError};

verus! {

/// The configuration attached to a resource wrapper, describing whether,
/// where and how the resource is collected. Once attached, the placement
/// location is always concrete; only the fallback may be absent.
#[derive(Debug, Clone)]
pub struct CollectionContext {
    /// Whether the resource is collected at all.
    pub collect: bool,
    /// The primary placement target.
    pub location: ConcreteResourceLocation,
    /// The placement to use if the primary is unavailable.
    pub location_fallback: Option<ConcreteResourceLocation>,
    /// Whether source text is retained alongside compiled forms.
    pub store_source: bool,
    /// Whether bytecode is produced at optimization level zero.
    pub optimize_level_zero: bool,
    /// Whether bytecode is produced at optimization level one.
    pub optimize_level_one: bool,
    /// Whether bytecode is produced at optimization level two.
    pub optimize_level_two: bool,
}

/// Whether a name is one of the shared collection-context attributes.
pub open spec fn is_collection_context_attr(name: Seq<char>) -> bool {
    ||| name == "add_include"@
    ||| name == "add_location"@
    ||| name == "add_location_fallback"@
    ||| name == "add_source"@
    ||| name == "add_bytecode_optimization_level_zero"@
    ||| name == "add_bytecode_optimization_level_one"@
    ||| name == "add_bytecode_optimization_level_two"@
}

/// The collection-context attribute names, in their canonical order.
pub fn add_collection_context_attrs() -> (r: Vec<&'static str>)
    ensures
        r@.len() == 7,
        r@[0]@ == "add_include"@,
        r@[1]@ == "add_location"@,
        r@[2]@ == "add_location_fallback"@,
        r@[3]@ == "add_source"@,
        r@[4]@ == "add_bytecode_optimization_level_zero"@,
        r@[5]@ == "add_bytecode_optimization_level_one"@,
        r@[6]@ == "add_bytecode_optimization_level_two"@,
        forall|i: int| 0 <= i < 7 ==> is_collection_context_attr(#[trigger] r@[i]@),
{
    let mut v: Vec<&'static str> = Vec::new();
    v.push("add_include");
    v.push("add_location");
    v.push("add_location_fallback");
    v.push("add_source");
    v.push("add_bytecode_optimization_level_zero");
    v.push("add_bytecode_optimization_level_one");
    v.push("add_bytecode_optimization_level_two");
    v
}

/// Whether a name is one of the shared collection-context attributes.
pub fn is_collection_context_attr_name(name: &str) -> (r: bool)
    ensures
        r == is_collection_context_attr(name@),
{
    str_eq(name, "add_include") || str_eq(name, "add_location") || str_eq(
        name,
        "add_location_fallback",
    ) || str_eq(name, "add_source") || str_eq(name, "add_bytecode_optimization_level_zero")
        || str_eq(name, "add_bytecode_optimization_level_one") || str_eq(
        name,
        "add_bytecode_optimization_level_two",
    )
}

/// What a read of a collection-context attribute returns: null when the
/// context itself is absent, otherwise the named field, with locations in
/// their encoded string form and an absent fallback as null.
pub open spec fn ctx_attr_read(ctx: Option<CollectionContext>, name: Seq<char>) -> AttrV {
    match ctx {
        None => AttrV::Null,
        Some(c) => {
            if name == "add_include"@ {
                AttrV::Bool(c.collect)
            } else if name == "add_location"@ {
                AttrV::Str(encode_location(c.location@))
            } else if name == "add_location_fallback"@ {
                match c.location_fallback {
                    None => AttrV::Null,
                    Some(l) => AttrV::Str(encode_location(l@)),
                }
            } else if name == "add_source"@ {
                AttrV::Bool(c.store_source)
            } else if name == "add_bytecode_optimization_level_zero"@ {
                AttrV::Bool(c.optimize_level_zero)
            } else if name == "add_bytecode_optimization_level_one"@ {
                AttrV::Bool(c.optimize_level_one)
            } else {
                AttrV::Bool(c.optimize_level_two)
            }
        },
    }
}

/// Read a collection-context attribute. If the context is absent every
/// attribute reads as null rather than erroring.
pub fn get_attr_add_collection_context(ctx: &Option<CollectionContext>, attribute: &str) -> (r:
    AttrValue)
    requires
        is_collection_context_attr(attribute@),
    ensures
        r@ == ctx_attr_read(*ctx, attribute@),
{
    match ctx {
        None => AttrValue::Null,
        Some(c) => {
            if str_eq(attribute, "add_include") {
                AttrValue::Bool(c.collect)
            } else if str_eq(attribute, "add_location") {
                AttrValue::Str(crate::location::encode_concrete(&c.location))
            } else if str_eq(attribute, "add_location_fallback") {
                match &c.location_fallback {
                    None => AttrValue::Null,
                    Some(l) => AttrValue::Str(crate::location::encode_concrete(l)),
                }
            } else if str_eq(attribute, "add_source") {
                AttrValue::Bool(c.store_source)
            } else if str_eq(attribute, "add_bytecode_optimization_level_zero") {
                AttrValue::Bool(c.optimize_level_zero)
            } else if str_eq(attribute, "add_bytecode_optimization_level_one") {
                AttrValue::Bool(c.optimize_level_one)
            } else {
                AttrValue::Bool(c.optimize_level_two)
            }
        },
    }
}

/// Whether a write of `v` to the named attribute succeeds, given that a
/// context is present. Boolean attributes accept every value through
/// truthiness; the primary location requires a value that decodes to a
/// concrete location; the fallback requires a value that decodes at all.
pub open spec fn ctx_write_ok(name: Seq<char>, v: AttrValue) -> bool {
    if name == "add_location"@ {
        decode_attr_value(v) matches Some(Some(_))
    } else if name == "add_location_fallback"@ {
        decode_attr_value(v) is Some
    } else {
        true
    }
}

/// Equality of every field but the primary location.
pub open spec fn same_except_location(a: CollectionContext, b: CollectionContext) -> bool {
    &&& a.collect == b.collect
    &&& a.location_fallback == b.location_fallback
    &&& a.store_source == b.store_source
    &&& a.optimize_level_zero == b.optimize_level_zero
    &&& a.optimize_level_one == b.optimize_level_one
    &&& a.optimize_level_two == b.optimize_level_two
}

/// Equality of every field but the fallback location.
pub open spec fn same_except_fallback(a: CollectionContext, b: CollectionContext) -> bool {
    &&& a.collect == b.collect
    &&& a.location == b.location
    &&& a.store_source == b.store_source
    &&& a.optimize_level_zero == b.optimize_level_zero
    &&& a.optimize_level_one == b.optimize_level_one
    &&& a.optimize_level_two == b.optimize_level_two
}

/// How a successful write of `v` to the named attribute relates the old
/// context `c` to the new context `c2`: exactly one field changes, to the
/// truthiness of `v` for the boolean attributes, to the decoded concrete
/// location for the primary location, and to the decoded optional
/// location for the fallback.
pub open spec fn ctx_after_write(
    c: CollectionContext,
    name: Seq<char>,
    v: AttrValue,
    c2: CollectionContext,
) -> bool {
    if name == "add_include"@ {
        c2 == CollectionContext { collect: truthy_view(v@), ..c }
    } else if name == "add_source"@ {
        c2 == CollectionContext { store_source: truthy_view(v@), ..c }
    } else if name == "add_bytecode_optimization_level_zero"@ {
        c2 == CollectionContext { optimize_level_zero: truthy_view(v@), ..c }
    } else if name == "add_bytecode_optimization_level_one"@ {
        c2 == CollectionContext { optimize_level_one: truthy_view(v@), ..c }
    } else if name == "add_bytecode_optimization_level_two"@ {
        c2 == CollectionContext { optimize_level_two: truthy_view(v@), ..c }
    } else if name == "add_location"@ {
        &&& decode_attr_value(v) == Some(Some(c2.location@))
        &&& same_except_location(c, c2)
    } else if name == "add_location_fallback"@ {
        &&& match decode_attr_value(v) {
            Some(Some(l)) => c2.location_fallback matches Some(cl) && cl@ == l,
            Some(None) => c2.location_fallback is None,
            None => false,
        }
        &&& same_except_fallback(c, c2)
    } else {
        false
    }
}

/// How a write of `v` to the named attribute relates the old optional
/// context, the new optional context and the returned result. With no
/// context present the write fails with a missing-context error naming
/// the wrapper kind and the attribute, and nothing changes. With a
/// context present the write succeeds exactly when `ctx_write_ok` admits
/// the value, updating the context as `ctx_after_write` says; otherwise
/// the context is unchanged and the offending value is returned in a
/// decode error.
pub open spec fn ctx_set_describes(
    oldc: Option<CollectionContext>,
    kind: Seq<char>,
    name: Seq<char>,
    v: AttrValue,
    newc: Option<CollectionContext>,
    r: Result<(), ValueError>,
) -> bool {
    match oldc {
        None => {
            &&& newc is None
            &&& r matches Err(e) && e matches ValueError::MissingContext { kind: k, attribute: a }
                && k@ == kind && a@ == name
        },
        Some(c) => {
            &&& ctx_write_ok(name, v) ==> r is Ok
            &&& ctx_write_ok(name, v) ==> (newc matches Some(c2) && ctx_after_write(c, name, v, c2))
            &&& !ctx_write_ok(name, v) ==> newc == oldc
            &&& !ctx_write_ok(name, v) ==> (r matches Err(e) && e matches
                ValueError::DecodeError { value: v2 } && v2@ == v@)
        },
    }
}

/// Write a collection-context attribute.
///
/// With no context present every write fails with a missing-context
/// error naming the attribute and the wrapper kind. With a context
/// present, boolean attributes store the value's truthiness; the primary
/// location accepts only a value that decodes to a concrete location and
/// rejects the absent reading (null or `"default"`) with a decode error;
/// the fallback accepts the absent reading as clearing it. A failed
/// write leaves the context unchanged.
pub fn set_attr_add_collection_context(
    ctx: &mut Option<CollectionContext>,
    kind: &str,
    attribute: &str,
    value: AttrValue,
) -> (r: Result<(), ValueError>)
    requires
        is_collection_context_attr(attribute@),
    ensures
        ctx_set_describes(*old(ctx), kind@, attribute@, value, *final(ctx), r),
{
    proof {
        reveal_strlit("add_include");
        reveal_strlit("add_source");
        reveal_strlit("add_location");
        reveal_strlit("add_location_fallback");
        reveal_strlit("add_bytecode_optimization_level_zero");
        reveal_strlit("add_bytecode_optimization_level_one");
        reveal_strlit("add_bytecode_optimization_level_two");
        assert(("add_include"@).len() == 11);
        assert(("add_source"@).len() == 10);
        assert(("add_location"@).len() == 12);
        assert(("add_location_fallback"@).len() == 21);
        assert(("add_bytecode_optimization_level_zero"@).len() == 36);
        assert(("add_bytecode_optimization_level_one"@).len() == 35);
        assert(("add_bytecode_optimization_level_two"@).len() == 35);
        assert(("add_bytecode_optimization_level_one"@)[34] == 'e');
        assert(("add_bytecode_optimization_level_two"@)[34] == 'o');
    }
    match ctx {
        None => Err(
            ValueError::MissingContext { kind: kind.to_owned(), attribute: attribute.to_owned() },
        ),
        Some(c) => {
            if str_eq(attribute, "add_include") {
                c.collect = value.truthy();
                Ok(())
            } else if str_eq(attribute, "add_source") {
                c.store_source = value.truthy();
                Ok(())
            } else if str_eq(attribute, "add_bytecode_optimization_level_zero") {
                c.optimize_level_zero = value.truthy();
                Ok(())
            } else if str_eq(attribute, "add_bytecode_optimization_level_one") {
                c.optimize_level_one = value.truthy();
                Ok(())
            } else if str_eq(attribute, "add_bytecode_optimization_level_two") {
                c.optimize_level_two = value.truthy();
                Ok(())
            } else if str_eq(attribute, "add_location") {
                match OptionalResourceLocation::try_from_value(&value) {
                    Ok(loc) => match loc.into_inner() {
                        Some(l) => {
                            c.location = l;
                            Ok(())
                        },
                        None => Err(ValueError::DecodeError { value }),
                    },
                    Err(e) => Err(e),
                }
            } else {
                match OptionalResourceLocation::try_from_value(&value) {
                    Ok(loc) => {
                        c.location_fallback = loc.into_inner();
                        Ok(())
                    },
                    Err(e) => Err(e),
                }
            }
        },
    }
}

/// Law: writing one optimization-level flag changes nothing else. A
/// successful write to any one of the three optimization-level attributes
/// leaves the other two flags, the collect flag, the store-source flag
/// and both locations unchanged.
pub proof fn lemma_optimization_flags_independent(
    c: CollectionContext,
    name: Seq<char>,
    v: AttrValue,
    c2: CollectionContext,
)
    requires
        name == "add_bytecode_optimization_level_zero"@ || name
            == "add_bytecode_optimization_level_one"@ || name
            == "add_bytecode_optimization_level_two"@,
        ctx_after_write(c, name, v, c2),
    ensures
        c2.collect == c.collect,
        c2.store_source == c.store_source,
        c2.location == c.location,
        c2.location_fallback == c.location_fallback,
        name != "add_bytecode_optimization_level_zero"@ ==> c2.optimize_level_zero
            == c.optimize_level_zero,
        name != "add_bytecode_optimization_level_one"@ ==> c2.optimize_level_one
            == c.optimize_level_one,
        name != "add_bytecode_optimization_level_two"@ ==> c2.optimize_level_two
            == c.optimize_level_two,
{
    reveal_strlit("add_bytecode_optimization_level_zero");
    reveal_strlit("add_bytecode_optimization_level_one");
    reveal_strlit("add_bytecode_optimization_level_two");
    reveal_strlit("add_include");
    reveal_strlit("add_source");
    assert(("add_include"@).len() == 11);
    assert(("add_source"@).len() == 10);
    assert(("add_bytecode_optimization_level_zero"@).len() == 36);
    assert(("add_bytecode_optimization_level_one"@).len() == 35);
    assert(("add_bytecode_optimization_level_two"@).len() == 35);
    assert(name != "add_include"@);
    assert(name != "add_source"@);
    assert(("add_bytecode_optimization_level_one"@)[34] == 'e');
    assert(("add_bytecode_optimization_level_two"@)[34] == 'o');
    assert("add_bytecode_optimization_level_one"@ != "add_bytecode_optimization_level_two"@);
}

/// Law: a present context's primary location is never observably
/// absent. Reading the primary-location attribute of a context yields an
/// encoded concrete location: never null, and never the string
/// `"default"`.
pub proof fn lemma_location_read_concrete(c: CollectionContext)
    ensures
        ctx_attr_read(Some(c), "add_location"@) matches AttrV::Str(s) && s != "default"@,
{
    reveal_strlit("add_include");
    reveal_strlit("add_location");
    reveal_strlit("default");
    reveal_strlit("in-memory");
    reveal_strlit("filesystem-relative:");
    assert(("add_include"@).len() == 11);
    assert(("add_location"@).len() == 12);
    assert(("default"@).len() == 7);
    assert(("in-memory"@).len() == 9);
    assert(("filesystem-relative:"@).len() == 20);
}

/// Law: the primary location is concrete after every successful write.
/// A write to the primary location succeeds only for a value that decodes
/// to a concrete location, and stores exactly that location; in
/// particular the absent reading (null or `"default"`) is never stored.
pub proof fn lemma_location_write_concrete(
    c: CollectionContext,
    v: AttrValue,
    c2: CollectionContext,
)
    requires
        ctx_after_write(c, "add_location"@, v, c2),
    ensures
        decode_attr_value(v) == Some(Some(c2.location@)),
        !(v is Null),
        v matches AttrValue::Str(s) ==> s@ != "default"@,
{
    reveal_strlit("add_include");
    reveal_strlit("add_source");
    reveal_strlit("add_location");
    reveal_strlit("add_location_fallback");
    reveal_strlit("add_bytecode_optimization_level_zero");
    reveal_strlit("add_bytecode_optimization_level_one");
    reveal_strlit("add_bytecode_optimization_level_two");
    assert(("add_location"@).len() == 12);
    assert("add_location"@ != "add_include"@);
    assert("add_location"@ != "add_source"@);
    assert("add_location"@ != "add_bytecode_optimization_level_zero"@);
    assert("add_location"@ != "add_bytecode_optimization_level_one"@);
    assert("add_location"@ != "add_bytecode_optimization_level_two"@);
    if v matches AttrValue::Str(s) && s@ == "default"@ {
        assert(decode_attr_value(v) == Some(None::<crate::location::LocationView>));
    }
}

} // verus!
