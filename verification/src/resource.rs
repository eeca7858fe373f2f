//! The resource records: immutable descriptions of the units a packaged
//! program is built from. Records are produced by a discovery collaborator;
//! this layer only attaches configuration to them and exposes them to the
//! configuration language.

use vstd::prelude::*;

verus! {

/// Where a record's raw data lives: already in memory, or in a file that
/// an external collaborator resolves on demand.
#[derive(Debug, Clone)]
pub enum SourceData {
    /// The bytes themselves.
    Memory(Vec<u8>),
    /// A filesystem path to the bytes.
    ExternalFile(String),
}

/// A module defined by source code.
#[derive(Debug, Clone)]
pub struct PythonModuleSource {
    /// The fully qualified module name.
    pub name: String,
    /// The source text.
    pub source: SourceData,
    /// Whether this module is also a package.
    pub is_package: bool,
    /// Tag applied to bytecode files compiled from this module.
    pub cache_tag: String,
    /// Whether this module belongs to the standard library.
    pub is_stdlib: bool,
    /// Whether this module only defines tests.
    pub is_test: bool,
}

/// A non-code resource file belonging to a package.
#[derive(Debug, Clone)]
pub struct PythonPackageResource {
    /// The leaf-most package this resource belongs to.
    pub leaf_package: String,
    /// The path of this resource relative to its package.
    pub relative_name: String,
    /// The resource data.
    pub data: SourceData,
    /// Whether this resource belongs to the standard library.
    pub is_stdlib: bool,
    /// Whether this resource belongs to a test package.
    pub is_test: bool,
}

/// Where a package distribution resource is materialized.
#[derive(Debug, Clone)]
pub enum DistributionResourceFlavor {
    /// In a `.dist-info` directory.
    DistInfo,
    /// In a `.egg-info` directory.
    EggInfo,
}

/// A file defining package distribution metadata.
#[derive(Debug, Clone)]
pub struct PythonPackageDistributionResource {
    /// Where the resource is materialized.
    pub location: DistributionResourceFlavor,
    /// The package this resource is associated with.
    pub package: String,
    /// The package's version string.
    pub version: String,
    /// The name of this resource within the distribution.
    pub name: String,
    /// The resource data.
    pub data: SourceData,
}

/// A native extension module.
#[derive(Debug, Clone)]
pub struct PythonExtensionModule {
    /// The module name the extension provides.
    pub name: String,
}

/// A module defined by existing bytecode.
#[derive(Debug, Clone)]
pub struct PythonModuleBytecode {
    /// The fully qualified module name.
    pub name: String,
}

/// A self-contained egg archive.
#[derive(Debug, Clone)]
pub struct PythonEggFile {
    /// The archive data.
    pub data: SourceData,
}

/// A resource record of any kind.
#[derive(Debug, Clone)]
pub enum PythonResource {
    /// A module defined by source code.
    ModuleSource(PythonModuleSource),
    /// A module defined by existing bytecode.
    ModuleBytecode(PythonModuleBytecode),
    /// A non-code resource file belonging to a package.
    PackageResource(PythonPackageResource),
    /// A file defining package distribution metadata.
    PackageDistributionResource(PythonPackageDistributionResource),
    /// A native extension module.
    ExtensionModule(PythonExtensionModule),
    /// A self-contained egg archive.
    EggFile(PythonEggFile),
}

/// The record kinds the configuration language can represent: a source
/// module, a package resource, a package distribution resource, or an
/// extension module.
pub open spec fn starlark_compatible(r: PythonResource) -> bool {
    match r {
        PythonResource::ModuleSource(_) => true,
        PythonResource::PackageResource(_) => true,
        PythonResource::PackageDistributionResource(_) => true,
        PythonResource::ExtensionModule(_) => true,
        _ => false,
    }
}

/// Whether a resource record can be turned into a configuration-language
/// wrapper. True for exactly the four wrapper-backed kinds; records of
/// any other kind must be filtered out before conversion.
pub fn is_resource_starlark_compatible(resource: &PythonResource) -> (r: bool)
    ensures
        r == starlark_compatible(*resource),
{
    match resource {
        PythonResource::ModuleSource(_) => true,
        PythonResource::PackageResource(_) => true,
        PythonResource::PackageDistributionResource(_) => true,
        PythonResource::ExtensionModule(_) => true,
        _ => false,
    }
}

} // verus!
