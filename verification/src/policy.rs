//! The policy adapter: deriving a default collection context for a
//! resource from the external packaging policy.
//!
//! The policy's decision logic is owned by the `python_packaging` crate and
//! is opaque here: nothing is assumed about the derived values beyond their
//! shape, which the library's own `CollectionContext` type enforces (the
//! primary location is always concrete).

use vstd::prelude::*;

use crate::context::CollectionContext;
use crate::location::ConcreteResourceLocation;
use crate::resource::{
    PythonModuleSource, PythonPackageDistributionResource, PythonPackageResource, SourceData,
};

verus! {

/// The external packaging policy, opaque to this library.
#[verifier::external_type_specification]
#[verifier::external_body]
pub struct ExPythonPackagingPolicy(python_packaging::policy::PythonPackagingPolicy);

/// The external form of a derived collection context, opaque to this
/// library until converted.
#[verifier::external_type_specification]
#[verifier::external_body]
pub struct ExPythonResourceAddCollectionContext(
    python_packaging::resource_collection::PythonResourceAddCollectionContext,
);

/// Relies on the fields of
/// `python_packaging::resource_collection::PythonResourceAddCollectionContext`
/// and the two variants of `python_packaging::location::ConcreteResourceLocation`:
/// copies each field across, mapping the location variants one for one.
/// The collected-by-default flag is supplied by the caller.
#[verifier::external_body]
fn context_from_policy(
    c: python_packaging::resource_collection::PythonResourceAddCollectionContext,
    collect: bool,
) -> (r: CollectionContext)
{
    let conv = |l: python_packaging::location::ConcreteResourceLocation| match l {
        python_packaging::location::ConcreteResourceLocation::InMemory =>
            ConcreteResourceLocation::InMemory,
        python_packaging::location::ConcreteResourceLocation::RelativePath(p) =>
            ConcreteResourceLocation::RelativePath(p),
    };
    CollectionContext {
        collect,
        location: conv(c.location),
        location_fallback: c.location_fallback.map(conv),
        store_source: c.store_source,
        optimize_level_zero: c.optimize_level_zero,
        optimize_level_one: c.optimize_level_one,
        optimize_level_two: c.optimize_level_two,
    }
}

/// Relies on `PythonPackagingPolicy`'s public accessors, combined as the
/// policy's resource filter combines them for a source module: classified
/// resources must be admitted, a test-only module needs the test flag,
/// and the distribution-sources flag decides the rest.
#[verifier::external_body]
fn derived_collect_for_module(
    policy: &python_packaging::policy::PythonPackagingPolicy,
    is_test: bool,
) -> (r: bool)
{
    policy.include_classified_resources() && (policy.include_test() || !is_test)
        && policy.include_distribution_sources()
}

/// Relies on `PythonPackagingPolicy`'s public accessors, combined as the
/// policy's resource filter combines them for a package resource:
/// classified resources must be admitted; a resource outside the standard
/// library is admitted, one inside it only by the distribution-resources
/// flag and, when test-only, the test flag.
#[verifier::external_body]
fn derived_collect_for_package_resource(
    policy: &python_packaging::policy::PythonPackagingPolicy,
    is_stdlib: bool,
    is_test: bool,
) -> (r: bool)
{
    policy.include_classified_resources() && (!is_stdlib || (
        policy.include_distribution_resources() && (policy.include_test() || !is_test)
    ))
}

/// Relies on `PythonPackagingPolicy`'s public accessors, combined as the
/// policy's resource filter combines them for a distribution resource:
/// it is admitted exactly when classified resources are.
#[verifier::external_body]
fn derived_collect_for_distribution_resource(
    policy: &python_packaging::policy::PythonPackagingPolicy,
) -> (r: bool)
{
    policy.include_classified_resources()
}

/// Relies on `PythonPackagingPolicy::derive_add_collection_context`
/// applied to a module-source record built field for field from the given
/// record. The policy's decisions are opaque, so nothing is promised of
/// the result.
#[verifier::external_body]
fn derive_raw_for_module(
    policy: &python_packaging::policy::PythonPackagingPolicy,
    m: &PythonModuleSource,
) -> (r: python_packaging::resource_collection::PythonResourceAddCollectionContext)
{
    let record = python_packaging::resource::PythonModuleSource {
        name: m.name.clone(),
        source: match &m.source {
            SourceData::Memory(b) => simple_file_manifest::FileData::Memory(b.clone()),
            SourceData::ExternalFile(p) => simple_file_manifest::FileData::Path(p.into()),
        },
        is_package: m.is_package,
        cache_tag: m.cache_tag.clone(),
        is_stdlib: m.is_stdlib,
        is_test: m.is_test,
    };
    policy.derive_add_collection_context(&(&record).into())
}

/// Relies on `PythonPackagingPolicy::derive_add_collection_context`
/// applied to a package-resource record built field for field from the
/// given record. The policy's decisions are opaque, so nothing is
/// promised of the result.
#[verifier::external_body]
fn derive_raw_for_package_resource(
    policy: &python_packaging::policy::PythonPackagingPolicy,
    m: &PythonPackageResource,
) -> (r: python_packaging::resource_collection::PythonResourceAddCollectionContext)
{
    let record = python_packaging::resource::PythonPackageResource {
        leaf_package: m.leaf_package.clone(),
        relative_name: m.relative_name.clone(),
        data: match &m.data {
            SourceData::Memory(b) => simple_file_manifest::FileData::Memory(b.clone()),
            SourceData::ExternalFile(p) => simple_file_manifest::FileData::Path(p.into()),
        },
        is_stdlib: m.is_stdlib,
        is_test: m.is_test,
    };
    policy.derive_add_collection_context(&(&record).into())
}

/// Relies on `PythonPackagingPolicy::derive_add_collection_context`
/// applied to a distribution-resource record built field for field from
/// the given record, with the materialization flavor mapped variant for
/// variant. The policy's decisions are opaque, so nothing is promised of
/// the result.
#[verifier::external_body]
fn derive_raw_for_distribution_resource(
    policy: &python_packaging::policy::PythonPackagingPolicy,
    m: &PythonPackageDistributionResource,
) -> (r: python_packaging::resource_collection::PythonResourceAddCollectionContext)
{
    let record = python_packaging::resource::PythonPackageDistributionResource {
        location: match m.location {
            crate::resource::DistributionResourceFlavor::DistInfo => python_packaging::resource::PythonPackageDistributionResourceFlavor::DistInfo,
            crate::resource::DistributionResourceFlavor::EggInfo => python_packaging::resource::PythonPackageDistributionResourceFlavor::EggInfo,
        },
        package: m.package.clone(),
        version: m.version.clone(),
        name: m.name.clone(),
        data: match &m.data {
            SourceData::Memory(b) => simple_file_manifest::FileData::Memory(b.clone()),
            SourceData::ExternalFile(p) => simple_file_manifest::FileData::Path(p.into()),
        },
    };
    policy.derive_add_collection_context(&(&record).into())
}

/// Derive the default collection context for a source-module record.
pub fn derive_context_for_module(
    policy: &python_packaging::policy::PythonPackagingPolicy,
    m: &PythonModuleSource,
) -> CollectionContext {
    let raw = derive_raw_for_module(policy, m);
    let collect = derived_collect_for_module(policy, m.is_test);
    context_from_policy(raw, collect)
}

/// Derive the default collection context for a package-resource record.
pub fn derive_context_for_package_resource(
    policy: &python_packaging::policy::PythonPackagingPolicy,
    m: &PythonPackageResource,
) -> CollectionContext {
    let raw = derive_raw_for_package_resource(policy, m);
    let collect = derived_collect_for_package_resource(policy, m.is_stdlib, m.is_test);
    context_from_policy(raw, collect)
}

/// Derive the default collection context for a distribution-resource
/// record.
pub fn derive_context_for_distribution_resource(
    policy: &python_packaging::policy::PythonPackagingPolicy,
    m: &PythonPackageDistributionResource,
) -> CollectionContext {
    let raw = derive_raw_for_distribution_resource(policy, m);
    let collect = derived_collect_for_distribution_resource(policy);
    context_from_policy(raw, collect)
}

} // verus!
