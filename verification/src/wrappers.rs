//! The configuration-language wrappers, one per resource kind, and the
//! adapter that builds them from generic records.
//!
//! Each wrapper pairs its record with an optional collection context and
//! exposes a dynamically-typed attribute surface: intrinsic read-only
//! attributes of the record, plus — for the kinds that opt in through the
//! `ResourceCollectionContext` capability — the shared collection-context
//! attributes. Only the source-module kind accepts writes; the package
//! and distribution kinds expose the context read-only, and the extension
//! kind carries no context at all.

use vstd::prelude::*;
use vstd::string::*;

use crate::context::{
    ctx_attr_read, ctx_set_describes, get_attr_add_collection_context, is_collection_context_attr,
    is_collection_context_attr_name, set_attr_add_collection_context, CollectionContext,
};
use crate::policy::{
    derive_context_for_distribution_resource, derive_context_for_module,
    derive_context_for_package_resource,
};
use crate::resource::{
    starlark_compatible, PythonExtensionModule, PythonModuleSource,
    PythonPackageDistributionResource, PythonPackageResource, PythonResource,
};
use crate::source_text::{resolve_source_text, source_read_describes};
use crate::values::{str_eq, AttrV, AttrValue, ValueError};

verus! {

/// An unrecognized-attribute failure naming the wrapper kind and the
/// attribute.
pub open spec fn unsupported_for(e: ValueError, kind: Seq<char>, name: Seq<char>) -> bool {
    e matches ValueError::UnsupportedAttribute { kind: k, attribute: a } && k@ == kind && a@
        == name
}

/// The capability through which a wrapper kind opts into the shared
/// collection-context attribute surface.
pub trait ResourceCollectionContext: Sized {
    /// The wrapper's optional collection context, as contracts see it.
    spec fn collection_context_view(&self) -> Option<CollectionContext>;

    /// The optional collection context attached to this wrapper.
    fn add_collection_context(&self) -> (r: &Option<CollectionContext>)
        ensures
            *r == self.collection_context_view(),
    ;

    /// Replace the collection context with the given one.
    fn replace_add_collection_context(&mut self, ctx: CollectionContext)
        ensures
            final(self).collection_context_view() == Some(ctx),
    ;

    /// The wrapper's record as a generic resource.
    fn as_python_resource(&self) -> PythonResource;

    /// Replace the collection context with one freshly derived from the
    /// packaging policy, discarding any prior context.
    fn apply_packaging_policy(
        &mut self,
        policy: &python_packaging::policy::PythonPackagingPolicy,
    )
        ensures
            final(self).collection_context_view() is Some,
    ;
}

/// The wrapper for a source-module record: intrinsic attributes `name`,
/// `source` and `is_package`, and the full read-and-write
/// collection-context surface.
#[derive(Debug, Clone)]
pub struct PythonSourceModuleValue {
    /// The wrapped record.
    pub inner: PythonModuleSource,
    /// The attached configuration, absent until policy is applied.
    pub add_context: Option<CollectionContext>,
}

/// What a read of an attribute of a source-module wrapper returns.
pub open spec fn source_module_get_describes(
    w: PythonSourceModuleValue,
    name: Seq<char>,
    r: Result<AttrValue, ValueError>,
) -> bool {
    if name == "name"@ {
        r matches Ok(v) && v@ == AttrV::Str(w.inner.name@)
    } else if name == "source"@ {
        source_read_describes(w.inner.source, r)
    } else if name == "is_package"@ {
        r matches Ok(v) && v@ == AttrV::Bool(w.inner.is_package)
    } else if is_collection_context_attr(name) {
        r matches Ok(v) && v@ == ctx_attr_read(w.add_context, name)
    } else {
        r matches Err(e) && unsupported_for(e, "PythonSourceModule"@, name)
    }
}

/// Whether a source-module wrapper has the named attribute.
pub open spec fn source_module_has_attr(name: Seq<char>) -> bool {
    ||| name == "name"@
    ||| name == "source"@
    ||| name == "is_package"@
    ||| is_collection_context_attr(name)
}

impl PythonSourceModuleValue {
    /// Wrap a source-module record, with no context attached yet.
    pub fn new(module: PythonModuleSource) -> (r: Self)
        ensures
            r.inner == module,
            r.add_context is None,
    {
        PythonSourceModuleValue { inner: module, add_context: None }
    }

    /// The wrapper's type name.
    pub fn get_type(&self) -> (r: &'static str)
        ensures
            r@ == "PythonSourceModule"@,
    {
        "PythonSourceModule"
    }

    /// The display form: the kind and the module name.
    pub fn to_str(&self) -> (r: String)
        ensures
            r@ == "PythonSourceModule<name="@ + self.inner.name@ + ">"@,
    {
        String::from_str("PythonSourceModule<name=").concat(self.inner.name.as_str()).concat(">")
    }

    /// The debug form, identical to the display form.
    pub fn to_repr(&self) -> (r: String)
        ensures
            r@ == "PythonSourceModule<name="@ + self.inner.name@ + ">"@,
    {
        self.to_str()
    }

    /// Read an attribute: an intrinsic one, or a collection-context one.
    pub fn get_attr(&self, attribute: &str) -> (r: Result<AttrValue, ValueError>)
        ensures
            source_module_get_describes(*self, attribute@, r),
    {
        if str_eq(attribute, "name") {
            Ok(AttrValue::Str(self.inner.name.clone()))
        } else if str_eq(attribute, "source") {
            resolve_source_text(&self.inner.source)
        } else if str_eq(attribute, "is_package") {
            Ok(AttrValue::Bool(self.inner.is_package))
        } else if is_collection_context_attr_name(attribute) {
            Ok(get_attr_add_collection_context(&self.add_context, attribute))
        } else {
            Err(
                ValueError::UnsupportedAttribute {
                    kind: String::from_str("PythonSourceModule"),
                    attribute: attribute.to_owned(),
                },
            )
        }
    }

    /// Whether the wrapper has the named attribute. Presence is a
    /// property of the kind alone, independent of whether a context is
    /// currently attached.
    pub fn has_attr(&self, attribute: &str) -> (r: Result<bool, ValueError>)
        ensures
            r matches Ok(b) && b == source_module_has_attr(attribute@),
    {
        Ok(
            str_eq(attribute, "name") || str_eq(attribute, "source") || str_eq(
                attribute,
                "is_package",
            ) || is_collection_context_attr_name(attribute),
        )
    }

    /// Write an attribute. Only collection-context attributes accept
    /// writes; the record itself is never changed.
    pub fn set_attr(&mut self, attribute: &str, value: AttrValue) -> (r: Result<(), ValueError>)
        ensures
            final(self).inner == old(self).inner,
            is_collection_context_attr(attribute@) ==> ctx_set_describes(
                old(self).add_context,
                "PythonSourceModule"@,
                attribute@,
                value,
                final(self).add_context,
                r,
            ),
            !is_collection_context_attr(attribute@) ==> ({
                &&& final(self).add_context == old(self).add_context
                &&& r matches Err(e) && unsupported_for(e, "PythonSourceModule"@, attribute@)
            }),
    {
        if is_collection_context_attr_name(attribute) {
            set_attr_add_collection_context(
                &mut self.add_context,
                "PythonSourceModule",
                attribute,
                value,
            )
        } else {
            Err(
                ValueError::UnsupportedAttribute {
                    kind: String::from_str("PythonSourceModule"),
                    attribute: attribute.to_owned(),
                },
            )
        }
    }
}

impl ResourceCollectionContext for PythonSourceModuleValue {
    open spec fn collection_context_view(&self) -> Option<CollectionContext> {
        self.add_context
    }

    fn add_collection_context(&self) -> (r: &Option<CollectionContext>) {
        &self.add_context
    }

    fn replace_add_collection_context(&mut self, ctx: CollectionContext) {
        self.add_context = Some(ctx);
    }

    fn as_python_resource(&self) -> PythonResource {
        PythonResource::ModuleSource(self.inner.clone())
    }

    fn apply_packaging_policy(
        &mut self,
        policy: &python_packaging::policy::PythonPackagingPolicy,
    ) {
        let ctx = derive_context_for_module(policy, &self.inner);
        self.add_context = Some(ctx);
    }
}

/// The wrapper for a package-resource record: intrinsic attributes
/// `package` and `name`, and the collection-context surface for reading
/// only — no write path is wired for this kind, so every write fails as
/// unsupported.
#[derive(Debug, Clone)]
pub struct PythonPackageResourceValue {
    /// The wrapped record.
    pub inner: PythonPackageResource,
    /// The attached configuration, absent until policy is applied.
    pub add_context: Option<CollectionContext>,
}

/// What a read of an attribute of a package-resource wrapper returns.
pub open spec fn package_resource_get_describes(
    w: PythonPackageResourceValue,
    name: Seq<char>,
    r: Result<AttrValue, ValueError>,
) -> bool {
    if name == "package"@ {
        r matches Ok(v) && v@ == AttrV::Str(w.inner.leaf_package@)
    } else if name == "name"@ {
        r matches Ok(v) && v@ == AttrV::Str(w.inner.relative_name@)
    } else if is_collection_context_attr(name) {
        r matches Ok(v) && v@ == ctx_attr_read(w.add_context, name)
    } else {
        r matches Err(e) && unsupported_for(e, "PythonPackageResource"@, name)
    }
}

/// Whether a package-resource wrapper has the named attribute.
pub open spec fn package_resource_has_attr(name: Seq<char>) -> bool {
    ||| name == "package"@
    ||| name == "name"@
    ||| is_collection_context_attr(name)
}

impl PythonPackageResourceValue {
    /// Wrap a package-resource record, with no context attached yet.
    pub fn new(resource: PythonPackageResource) -> (r: Self)
        ensures
            r.inner == resource,
            r.add_context is None,
    {
        PythonPackageResourceValue { inner: resource, add_context: None }
    }

    /// The wrapper's type name.
    pub fn get_type(&self) -> (r: &'static str)
        ensures
            r@ == "PythonPackageResource"@,
    {
        "PythonPackageResource"
    }

    /// The display form: the kind, the package and the resource name.
    pub fn to_str(&self) -> (r: String)
        ensures
            r@ == "PythonPackageResource<package="@ + self.inner.leaf_package@ + ", name="@
                + self.inner.relative_name@ + ">"@,
    {
        String::from_str("PythonPackageResource<package=").concat(
            self.inner.leaf_package.as_str(),
        ).concat(", name=").concat(self.inner.relative_name.as_str()).concat(">")
    }

    /// The debug form, identical to the display form.
    pub fn to_repr(&self) -> (r: String)
        ensures
            r@ == "PythonPackageResource<package="@ + self.inner.leaf_package@ + ", name="@
                + self.inner.relative_name@ + ">"@,
    {
        self.to_str()
    }

    /// Read an attribute: an intrinsic one, or a collection-context one.
    pub fn get_attr(&self, attribute: &str) -> (r: Result<AttrValue, ValueError>)
        ensures
            package_resource_get_describes(*self, attribute@, r),
    {
        if str_eq(attribute, "package") {
            Ok(AttrValue::Str(self.inner.leaf_package.clone()))
        } else if str_eq(attribute, "name") {
            Ok(AttrValue::Str(self.inner.relative_name.clone()))
        } else if is_collection_context_attr_name(attribute) {
            Ok(get_attr_add_collection_context(&self.add_context, attribute))
        } else {
            Err(
                ValueError::UnsupportedAttribute {
                    kind: String::from_str("PythonPackageResource"),
                    attribute: attribute.to_owned(),
                },
            )
        }
    }

    /// Whether the wrapper has the named attribute.
    pub fn has_attr(&self, attribute: &str) -> (r: Result<bool, ValueError>)
        ensures
            r matches Ok(b) && b == package_resource_has_attr(attribute@),
    {
        Ok(
            str_eq(attribute, "package") || str_eq(attribute, "name")
                || is_collection_context_attr_name(attribute),
        )
    }

    /// Write an attribute: this kind accepts none, so every write fails
    /// as unsupported and changes nothing.
    pub fn set_attr(&mut self, attribute: &str, _value: AttrValue) -> (r: Result<(), ValueError>)
        ensures
            *final(self) == *old(self),
            r matches Err(e) && unsupported_for(e, "PythonPackageResource"@, attribute@),
    {
        Err(
            ValueError::UnsupportedAttribute {
                kind: String::from_str("PythonPackageResource"),
                attribute: attribute.to_owned(),
            },
        )
    }
}

impl ResourceCollectionContext for PythonPackageResourceValue {
    open spec fn collection_context_view(&self) -> Option<CollectionContext> {
        self.add_context
    }

    fn add_collection_context(&self) -> (r: &Option<CollectionContext>) {
        &self.add_context
    }

    fn replace_add_collection_context(&mut self, ctx: CollectionContext) {
        self.add_context = Some(ctx);
    }

    fn as_python_resource(&self) -> PythonResource {
        PythonResource::PackageResource(self.inner.clone())
    }

    fn apply_packaging_policy(
        &mut self,
        policy: &python_packaging::policy::PythonPackagingPolicy,
    ) {
        let ctx = derive_context_for_package_resource(policy, &self.inner);
        self.add_context = Some(ctx);
    }
}

/// The wrapper for a distribution-resource record: intrinsic attributes
/// `package` and `name`, the read-only collection-context surface, and a
/// boolean coercion that is always true.
#[derive(Debug, Clone)]
pub struct PythonPackageDistributionResourceValue {
    /// The wrapped record.
    pub inner: PythonPackageDistributionResource,
    /// The attached configuration, absent until policy is applied.
    pub add_context: Option<CollectionContext>,
}

/// What a read of an attribute of a distribution-resource wrapper
/// returns.
pub open spec fn distribution_resource_get_describes(
    w: PythonPackageDistributionResourceValue,
    name: Seq<char>,
    r: Result<AttrValue, ValueError>,
) -> bool {
    if name == "package"@ {
        r matches Ok(v) && v@ == AttrV::Str(w.inner.package@)
    } else if name == "name"@ {
        r matches Ok(v) && v@ == AttrV::Str(w.inner.name@)
    } else if is_collection_context_attr(name) {
        r matches Ok(v) && v@ == ctx_attr_read(w.add_context, name)
    } else {
        r matches Err(e) && unsupported_for(e, "PythonPackageDistributionResource"@, name)
    }
}

/// Whether a distribution-resource wrapper has the named attribute.
pub open spec fn distribution_resource_has_attr(name: Seq<char>) -> bool {
    ||| name == "package"@
    ||| name == "name"@
    ||| is_collection_context_attr(name)
}

impl PythonPackageDistributionResourceValue {
    /// Wrap a distribution-resource record, with no context attached yet.
    pub fn new(resource: PythonPackageDistributionResource) -> (r: Self)
        ensures
            r.inner == resource,
            r.add_context is None,
    {
        PythonPackageDistributionResourceValue { inner: resource, add_context: None }
    }

    /// The wrapper's type name.
    pub fn get_type(&self) -> (r: &'static str)
        ensures
            r@ == "PythonPackageDistributionResource"@,
    {
        "PythonPackageDistributionResource"
    }

    /// The display form: the kind, the package and the resource name.
    pub fn to_str(&self) -> (r: String)
        ensures
            r@ == "PythonPackageDistributionResource<package="@ + self.inner.package@ + ", name="@
                + self.inner.name@ + ">"@,
    {
        String::from_str("PythonPackageDistributionResource<package=").concat(
            self.inner.package.as_str(),
        ).concat(", name=").concat(self.inner.name.as_str()).concat(">")
    }

    /// The debug form, identical to the display form.
    pub fn to_repr(&self) -> (r: String)
        ensures
            r@ == "PythonPackageDistributionResource<package="@ + self.inner.package@ + ", name="@
                + self.inner.name@ + ">"@,
    {
        self.to_str()
    }

    /// The boolean coercion: a populated wrapper is always truthy.
    pub fn to_bool(&self) -> (r: bool)
        ensures
            r == true,
    {
        true
    }

    /// Read an attribute: an intrinsic one, or a collection-context one.
    pub fn get_attr(&self, attribute: &str) -> (r: Result<AttrValue, ValueError>)
        ensures
            distribution_resource_get_describes(*self, attribute@, r),
    {
        if str_eq(attribute, "package") {
            Ok(AttrValue::Str(self.inner.package.clone()))
        } else if str_eq(attribute, "name") {
            Ok(AttrValue::Str(self.inner.name.clone()))
        } else if is_collection_context_attr_name(attribute) {
            Ok(get_attr_add_collection_context(&self.add_context, attribute))
        } else {
            Err(
                ValueError::UnsupportedAttribute {
                    kind: String::from_str("PythonPackageDistributionResource"),
                    attribute: attribute.to_owned(),
                },
            )
        }
    }

    /// Whether the wrapper has the named attribute.
    pub fn has_attr(&self, attribute: &str) -> (r: Result<bool, ValueError>)
        ensures
            r matches Ok(b) && b == distribution_resource_has_attr(attribute@),
    {
        Ok(
            str_eq(attribute, "package") || str_eq(attribute, "name")
                || is_collection_context_attr_name(attribute),
        )
    }

    /// Write an attribute: this kind accepts none, so every write fails
    /// as unsupported and changes nothing.
    pub fn set_attr(&mut self, attribute: &str, _value: AttrValue) -> (r: Result<(), ValueError>)
        ensures
            *final(self) == *old(self),
            r matches Err(e) && unsupported_for(
                e,
                "PythonPackageDistributionResource"@,
                attribute@,
            ),
    {
        Err(
            ValueError::UnsupportedAttribute {
                kind: String::from_str("PythonPackageDistributionResource"),
                attribute: attribute.to_owned(),
            },
        )
    }
}

impl ResourceCollectionContext for PythonPackageDistributionResourceValue {
    open spec fn collection_context_view(&self) -> Option<CollectionContext> {
        self.add_context
    }

    fn add_collection_context(&self) -> (r: &Option<CollectionContext>) {
        &self.add_context
    }

    fn replace_add_collection_context(&mut self, ctx: CollectionContext) {
        self.add_context = Some(ctx);
    }

    fn as_python_resource(&self) -> PythonResource {
        PythonResource::PackageDistributionResource(self.inner.clone())
    }

    fn apply_packaging_policy(
        &mut self,
        policy: &python_packaging::policy::PythonPackagingPolicy,
    ) {
        let ctx = derive_context_for_distribution_resource(policy, &self.inner);
        self.add_context = Some(ctx);
    }
}

/// The wrapper for an extension-module record: the intrinsic attribute
/// `name` only. This kind carries no collection context and exposes none
/// of the shared surface.
#[derive(Debug, Clone)]
pub struct PythonExtensionModuleValue {
    /// The wrapped record.
    pub inner: PythonExtensionModule,
}

/// What a read of an attribute of an extension-module wrapper returns.
pub open spec fn extension_module_get_describes(
    w: PythonExtensionModuleValue,
    name: Seq<char>,
    r: Result<AttrValue, ValueError>,
) -> bool {
    if name == "name"@ {
        r matches Ok(v) && v@ == AttrV::Str(w.inner.name@)
    } else {
        r matches Err(e) && unsupported_for(e, "PythonExtensionModule"@, name)
    }
}

impl PythonExtensionModuleValue {
    /// Wrap an extension-module record.
    pub fn new(module: PythonExtensionModule) -> (r: Self)
        ensures
            r.inner == module,
    {
        PythonExtensionModuleValue { inner: module }
    }

    /// The wrapper's type name.
    pub fn get_type(&self) -> (r: &'static str)
        ensures
            r@ == "PythonExtensionModule"@,
    {
        "PythonExtensionModule"
    }

    /// The display form: the kind and the module name.
    pub fn to_str(&self) -> (r: String)
        ensures
            r@ == "PythonExtensionModule<name="@ + self.inner.name@ + ">"@,
    {
        String::from_str("PythonExtensionModule<name=").concat(self.inner.name.as_str()).concat(
            ">",
        )
    }

    /// The debug form, identical to the display form.
    pub fn to_repr(&self) -> (r: String)
        ensures
            r@ == "PythonExtensionModule<name="@ + self.inner.name@ + ">"@,
    {
        self.to_str()
    }

    /// Read an attribute: only the module name is exposed.
    pub fn get_attr(&self, attribute: &str) -> (r: Result<AttrValue, ValueError>)
        ensures
            extension_module_get_describes(*self, attribute@, r),
    {
        if str_eq(attribute, "name") {
            Ok(AttrValue::Str(self.inner.name.clone()))
        } else {
            Err(
                ValueError::UnsupportedAttribute {
                    kind: String::from_str("PythonExtensionModule"),
                    attribute: attribute.to_owned(),
                },
            )
        }
    }

    /// Whether the wrapper has the named attribute.
    pub fn has_attr(&self, attribute: &str) -> (r: Result<bool, ValueError>)
        ensures
            r matches Ok(b) && b == (attribute@ == "name"@),
    {
        Ok(str_eq(attribute, "name"))
    }

    /// Write an attribute: this kind accepts none, so every write fails
    /// as unsupported and changes nothing.
    pub fn set_attr(&mut self, attribute: &str, _value: AttrValue) -> (r: Result<(), ValueError>)
        ensures
            *final(self) == *old(self),
            r matches Err(e) && unsupported_for(e, "PythonExtensionModule"@, attribute@),
    {
        Err(
            ValueError::UnsupportedAttribute {
                kind: String::from_str("PythonExtensionModule"),
                attribute: attribute.to_owned(),
            },
        )
    }
}

/// A wrapper of any kind: the opaque value handed to the configuration
/// language.
#[derive(Debug, Clone)]
pub enum ResourceValue {
    /// A source-module wrapper.
    SourceModule(PythonSourceModuleValue),
    /// A package-resource wrapper.
    PackageResource(PythonPackageResourceValue),
    /// A distribution-resource wrapper.
    PackageDistributionResource(PythonPackageDistributionResourceValue),
    /// An extension-module wrapper.
    ExtensionModule(PythonExtensionModuleValue),
}

/// Build the wrapper for a compatible resource record, deriving its
/// collection context from the packaging policy. The three context-bearing
/// kinds come out with a context attached; the extension kind carries
/// none. Callers must filter records with `is_resource_starlark_compatible`
/// first: an incompatible record is a precondition violation, not a
/// recoverable error.
pub fn python_resource_to_value(
    resource: PythonResource,
    policy: &python_packaging::policy::PythonPackagingPolicy,
) -> (r: ResourceValue)
    requires
        starlark_compatible(resource),
    ensures
        resource matches PythonResource::ModuleSource(m) ==> (r matches ResourceValue::SourceModule(
            w,
        ) && w.inner == m && w.add_context is Some),
        resource matches PythonResource::PackageResource(p) ==> (r matches
            ResourceValue::PackageResource(w) && w.inner == p && w.add_context is Some),
        resource matches PythonResource::PackageDistributionResource(d) ==> (r matches
            ResourceValue::PackageDistributionResource(w) && w.inner == d && w.add_context is Some),
        resource matches PythonResource::ExtensionModule(e) ==> (r matches
            ResourceValue::ExtensionModule(w) && w.inner == e),
{
    match resource {
        PythonResource::ModuleSource(m) => {
            let mut w = PythonSourceModuleValue::new(m);
            let ctx = derive_context_for_module(policy, &w.inner);
            w.add_context = Some(ctx);
            ResourceValue::SourceModule(w)
        },
        PythonResource::PackageResource(p) => {
            let mut w = PythonPackageResourceValue::new(p);
            let ctx = derive_context_for_package_resource(policy, &w.inner);
            w.add_context = Some(ctx);
            ResourceValue::PackageResource(w)
        },
        PythonResource::PackageDistributionResource(d) => {
            let mut w = PythonPackageDistributionResourceValue::new(d);
            let ctx = derive_context_for_distribution_resource(policy, &w.inner);
            w.add_context = Some(ctx);
            ResourceValue::PackageDistributionResource(w)
        },
        PythonResource::ExtensionModule(e) => ResourceValue::ExtensionModule(
            PythonExtensionModuleValue::new(e),
        ),
        _ => {
            proof {
                assert(false);
            }
            vstd::pervasive::unreached()
        },
    }
}

} // verus!
