use python_packaging::policy::PythonPackagingPolicy;
use python_resource::context::add_collection_context_attrs;
use python_resource::resource::{
    is_resource_starlark_compatible, DistributionResourceFlavor, PythonEggFile,
    PythonExtensionModule, PythonModuleBytecode, PythonPackageDistributionResource,
    PythonPackageResource, PythonResource, SourceData,
};
use python_resource::values::{AttrValue, ValueError};
use python_resource::wrappers::{
    python_resource_to_value, PythonPackageResourceValue, ResourceCollectionContext, ResourceValue,
};

fn make_package_resource() -> PythonPackageResource {
    PythonPackageResource {
        leaf_package: "acme".to_string(),
        relative_name: "data.txt".to_string(),
        data: SourceData::Memory(b"hello".to_vec()),
        is_stdlib: false,
        is_test: false,
    }
}

fn make_distribution_resource() -> PythonPackageDistributionResource {
    PythonPackageDistributionResource {
        location: DistributionResourceFlavor::DistInfo,
        package: "acme".to_string(),
        version: "1.0".to_string(),
        name: "METADATA".to_string(),
        data: SourceData::Memory(b"Name: acme".to_vec()),
    }
}

fn expect_str(v: AttrValue) -> String {
    match v {
        AttrValue::Str(s) => s,
        other => panic!("expected a string value, got {:?}", other),
    }
}

#[test]
fn compatibility_is_exactly_the_four_wrapper_kinds() {
    let policy_kinds = [
        is_resource_starlark_compatible(&PythonResource::ModuleSource(
            python_resource::resource::PythonModuleSource {
                name: "m".to_string(),
                source: SourceData::Memory(vec![]),
                is_package: false,
                cache_tag: "tag".to_string(),
                is_stdlib: false,
                is_test: false,
            },
        )),
        is_resource_starlark_compatible(&PythonResource::PackageResource(
            make_package_resource(),
        )),
        is_resource_starlark_compatible(&PythonResource::PackageDistributionResource(
            make_distribution_resource(),
        )),
        is_resource_starlark_compatible(&PythonResource::ExtensionModule(
            PythonExtensionModule { name: "ext".to_string() },
        )),
    ];
    assert_eq!(policy_kinds, [true, true, true, true]);

    assert!(!is_resource_starlark_compatible(
        &PythonResource::ModuleBytecode(PythonModuleBytecode { name: "m".to_string() })
    ));
    assert!(!is_resource_starlark_compatible(&PythonResource::EggFile(
        PythonEggFile { data: SourceData::Memory(vec![]) }
    )));
}

#[test]
fn package_resource_wrapper_reads_but_rejects_writes() {
    let policy = PythonPackagingPolicy::default();
    let value = python_resource_to_value(
        PythonResource::PackageResource(make_package_resource()),
        &policy,
    );
    let mut w = match value {
        ResourceValue::PackageResource(w) => w,
        other => panic!("expected a package-resource wrapper, got {:?}", other),
    };

    assert_eq!(w.get_type(), "PythonPackageResource");
    assert_eq!(expect_str(w.get_attr("package").unwrap()), "acme");
    assert_eq!(expect_str(w.get_attr("name").unwrap()), "data.txt");
    assert_eq!(w.to_str(), "PythonPackageResource<package=acme, name=data.txt>");

    assert!(w.has_attr("add_include").unwrap());
    assert!(matches!(
        w.get_attr("add_include").unwrap(),
        AttrValue::Bool(true)
    ));
    assert_eq!(expect_str(w.get_attr("add_location").unwrap()), "in-memory");

    match w.set_attr("add_include", AttrValue::Bool(true)) {
        Err(ValueError::UnsupportedAttribute { kind, attribute }) => {
            assert_eq!(kind, "PythonPackageResource");
            assert_eq!(attribute, "add_include");
        }
        other => panic!("expected an unsupported-attribute error, got {:?}", other),
    }
    assert!(matches!(
        w.get_attr("add_include").unwrap(),
        AttrValue::Bool(true)
    ));
}

#[test]
fn distribution_resource_wrapper_reads_but_rejects_writes() {
    let policy = PythonPackagingPolicy::default();
    let value = python_resource_to_value(
        PythonResource::PackageDistributionResource(make_distribution_resource()),
        &policy,
    );
    let mut w = match value {
        ResourceValue::PackageDistributionResource(w) => w,
        other => panic!("expected a distribution-resource wrapper, got {:?}", other),
    };

    assert_eq!(w.get_type(), "PythonPackageDistributionResource");
    assert_eq!(expect_str(w.get_attr("package").unwrap()), "acme");
    assert_eq!(expect_str(w.get_attr("name").unwrap()), "METADATA");
    assert_eq!(
        w.to_str(),
        "PythonPackageDistributionResource<package=acme, name=METADATA>"
    );
    assert!(w.to_bool());

    assert!(w.has_attr("add_include").unwrap());
    assert!(matches!(
        w.set_attr("add_include", AttrValue::Bool(true)),
        Err(ValueError::UnsupportedAttribute { .. })
    ));
}

#[test]
fn extension_module_wrapper_has_name_only() {
    let policy = PythonPackagingPolicy::default();
    let value = python_resource_to_value(
        PythonResource::ExtensionModule(PythonExtensionModule { name: "ext".to_string() }),
        &policy,
    );
    let mut w = match value {
        ResourceValue::ExtensionModule(w) => w,
        other => panic!("expected an extension-module wrapper, got {:?}", other),
    };

    assert_eq!(w.get_type(), "PythonExtensionModule");
    assert_eq!(expect_str(w.get_attr("name").unwrap()), "ext");
    assert_eq!(w.to_str(), "PythonExtensionModule<name=ext>");
    assert!(w.has_attr("name").unwrap());
    assert!(!w.has_attr("add_include").unwrap());
    assert!(matches!(
        w.get_attr("add_include"),
        Err(ValueError::UnsupportedAttribute { .. })
    ));
    assert!(matches!(
        w.set_attr("add_include", AttrValue::Bool(true)),
        Err(ValueError::UnsupportedAttribute { .. })
    ));
}

#[test]
fn policy_location_flows_into_derived_context() {
    let mut policy = PythonPackagingPolicy::default();
    policy.set_resources_location(
        python_packaging::location::ConcreteResourceLocation::RelativePath("lib".to_string()),
    );
    policy.set_resources_location_fallback(Some(
        python_packaging::location::ConcreteResourceLocation::InMemory,
    ));

    let value = python_resource_to_value(
        PythonResource::PackageResource(make_package_resource()),
        &policy,
    );
    let w = match value {
        ResourceValue::PackageResource(w) => w,
        other => panic!("expected a package-resource wrapper, got {:?}", other),
    };
    assert_eq!(
        expect_str(w.get_attr("add_location").unwrap()),
        "filesystem-relative:lib"
    );
    assert_eq!(
        expect_str(w.get_attr("add_location_fallback").unwrap()),
        "in-memory"
    );
}

#[test]
fn collection_context_attrs_are_the_seven_names() {
    let names = add_collection_context_attrs();
    assert_eq!(
        names,
        vec![
            "add_include",
            "add_location",
            "add_location_fallback",
            "add_source",
            "add_bytecode_optimization_level_zero",
            "add_bytecode_optimization_level_one",
            "add_bytecode_optimization_level_two",
        ]
    );
}

#[test]
fn capability_trait_applies_and_exposes_the_context() {
    let policy = PythonPackagingPolicy::default();
    let mut w = PythonPackageResourceValue::new(make_package_resource());
    assert!(w.add_collection_context().is_none());

    w.apply_packaging_policy(&policy);
    assert!(w.add_collection_context().is_some());

    let as_resource = w.as_python_resource();
    assert!(is_resource_starlark_compatible(&as_resource));

    let replacement = w.add_collection_context().clone().unwrap();
    w.replace_add_collection_context(replacement);
    assert!(w.add_collection_context().is_some());
}
