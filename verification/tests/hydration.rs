use catalyze::ast::file::{
    DependencyInner, DependentInner, Dependent, Hydrate as FileHydrate, Inner as FileInner, KeySet,
    OptimizeMode, Syntax,
};
use catalyze::ast::hydrate::Hydrate;
use catalyze::ast::node::{FileKey, MessageKey, PackageKey};
use catalyze::ast::package::Inner as PackageInner;
use catalyze::ast::reference::{
    Reference, ReferenceInner, References, Referent, ReferentKey, Referrer, ReferrerKey,
};
use catalyze::ast::table::{FileTable, PackageTable};
use catalyze::ast::FullyQualifiedName;
use catalyze::descriptor::FileOptions;
use catalyze::error::Error;
use catalyze::{to_i32, Mutex};

fn fqn(s: &str) -> FullyQualifiedName {
    FullyQualifiedName::from(s.to_string())
}

#[test]
fn package_nodes_know_the_well_known_package() {
    let p = PackageInner::new("google.protobuf");
    assert!(p.is_well_known());
    assert_eq!(p.fqn().as_str(), ".google.protobuf");
    assert_eq!(p.name(), "google.protobuf");
    let q = PackageInner::new("acme.v1");
    assert!(!q.is_well_known());
    assert_eq!(q.fqn().as_str(), ".acme.v1");
}

#[test]
fn package_node_records_files_in_order() {
    let mut p = PackageInner::new("a");
    p.add_file(FileKey(3));
    p.add_file(FileKey(1));
    assert_eq!(p.files, vec![FileKey(3), FileKey(1)]);
    assert_eq!(p.keys().len(), 2);
}

#[test]
fn table_finds_a_name_again() {
    let mut t = FileTable::new();
    let a = t.get_or_insert_key(fqn("a.proto"));
    let b = t.get_or_insert_key(fqn("b.proto"));
    let a2 = t.get_or_insert_key(fqn("a.proto"));
    assert_eq!(a, a2);
    assert_ne!(a, b);
    assert_eq!(t.get(a).key, a);
    assert_eq!(t.get(b).fqn.as_str(), "b.proto");
    assert_eq!(t.get_by_fqn(&fqn("b.proto")).unwrap().key, b);
    assert!(t.get_by_fqn(&fqn("c.proto")).is_none());
    assert!(t.keys().is_empty());
}

#[test]
fn hydrate_package_skips_absent_and_empty_packages() {
    let mut h = Hydrate::new();
    let (k, f) = h.hydrate_package(None);
    assert!(k.is_none() && f.is_none());
    let (k, f) = h.hydrate_package(Some(String::new()));
    assert!(k.is_none() && f.is_none());
}

#[test]
fn hydrate_package_stores_each_package_once() {
    let mut h = Hydrate::new();
    let (k1, f1) = h.hydrate_package(Some("acme.v1".to_string()));
    let (k2, f2) = h.hydrate_package(Some("acme.v1".to_string()));
    assert_eq!(k1, k2);
    assert_eq!(f1.unwrap().as_str(), ".acme.v1");
    assert_eq!(f2.unwrap().as_str(), ".acme.v1");
    let (k3, _) = h.hydrate_package(Some("other".to_string()));
    assert_ne!(k1, k3);
    let table: &mut PackageTable = h.packages.lock();
    let node = table.get(k1.unwrap());
    assert_eq!(node.name(), "acme.v1");
    assert_eq!(node.key, k1.unwrap());
}

#[test]
fn hydrate_dependencies_sets_flags_by_index() {
    let mut h = Hydrate::new();
    let me = h.file_key(fqn("main.proto"));
    let deps = vec!["a.proto".to_string(), "b.proto".to_string(), "a.proto".to_string()];
    let r = h.hydrate_dependencies(me, deps, vec![1], vec![0, 2]);
    assert_eq!(r.all.len(), 3);
    assert_eq!(r.all[0].dependency, r.all[2].dependency);
    assert_ne!(r.all[0].dependency, r.all[1].dependency);
    assert!(!r.all[0].is_public && r.all[0].is_weak);
    assert!(r.all[1].is_public && !r.all[1].is_weak);
    assert!(r.all.iter().all(|d| !d.is_used && d.dependent == me));
    assert_eq!(r.public, vec![r.all[1]]);
    assert_eq!(r.weak, vec![r.all[0], r.all[2]]);
    assert!(r.unused.is_empty());
    let table = h.files.lock();
    let a = table.get(r.all[0].dependency);
    assert_eq!(a.fqn.as_str(), "a.proto");
    assert_eq!(a.dependents, vec![r.all[0].as_dependent_inner(), r.all[2].as_dependent_inner()]);
    assert_eq!(a.transitive_dependents.len(), 2);
    let b = table.get(r.all[1].dependency);
    assert_eq!(b.dependents, vec![r.all[1].as_dependent_inner()]);
    assert!(table.get(me).dependents.is_empty());
}

fn options() -> FileOptions {
    FileOptions {
        java_package: Some("com.acme".to_string()),
        java_outer_classname: None,
        java_multiple_files: Some(true),
        java_generate_equals_and_hash: None,
        java_string_check_utf8: Some(false),
        optimize_for: Some(3),
        go_package: Some("acme/v1".to_string()),
        cc_generic_services: None,
        java_generic_services: None,
        py_generic_services: None,
        php_generic_services: None,
        deprecated: Some(true),
        cc_enable_arenas: None,
        objc_class_prefix: None,
        csharp_namespace: None,
        swift_prefix: None,
        php_class_prefix: None,
        php_namespace: None,
        php_metadata_namespace: None,
        ruby_package: Some("Acme".to_string()),
        uninterpreted_option: Vec::new(),
    }
}

fn hydrate_input(syntax: Option<&str>) -> FileHydrate {
    FileHydrate {
        name: "acme/v1/a.proto".to_string(),
        syntax: syntax.map(|s| s.to_string()),
        options: options(),
        package: Some(PackageKey(7)),
        messages: vec![(MessageKey(1), fqn(".acme.v1.A"), "A".to_string())],
        enums: Vec::new(),
        services: Vec::new(),
        extensions: Vec::new(),
        extension_blocks: Vec::new(),
        dependencies: Default::default(),
        package_comments: None,
        comments: None,
        is_build_target: true,
    }
}

#[test]
fn file_hydrate_fills_the_node() {
    let mut f = FileInner::from_fqn(fqn("acme/v1/a.proto"));
    f.set_key(FileKey(5));
    let (key, name_fqn, name) = f.hydrate(hydrate_input(Some("proto3"))).unwrap();
    assert_eq!(key, FileKey(5));
    assert_eq!(name_fqn.as_str(), "acme/v1/a.proto");
    assert_eq!(name, "acme/v1/a.proto");
    assert_eq!(f.syntax(), Syntax::Proto3);
    assert_eq!(f.path(), "acme/v1/a.proto");
    assert_eq!(f.package(), Some(PackageKey(7)));
    assert_eq!(f.messages.as_slice(), &[MessageKey(1)][..]);
    assert_eq!(f.messages.by_name("A"), Some(MessageKey(1)));
    assert_eq!(f.messages.by_name("B"), None);
    assert!(f.is_build_target());
    assert_eq!(f.java_package(), Some("com.acme"));
    assert_eq!(f.java_outer_classname(), None);
    assert!(f.java_multiple_files());
    assert!(!f.java_string_check_utf8());
    assert!(!f.java_generate_equals_and_hash());
    assert!(f.deprecated());
    assert_eq!(f.optimize_for(), Some(OptimizeMode::LiteRuntime));
    assert_eq!(f.go_package(), Some("acme/v1"));
    assert_eq!(f.ruby_package(), Some("Acme"));
    assert!(f.uninterpreted_option().is_empty());
}

#[test]
fn file_hydrate_refuses_a_missing_syntax() {
    let mut f = FileInner::default();
    let r = f.hydrate(hydrate_input(None));
    assert_eq!(r.unwrap_err(), Error::UnsupportedSyntax { value: String::new() });
    assert_eq!(f.name, "acme/v1/a.proto");
    assert_eq!(f.path(), "acme/v1/a.proto");
    assert_eq!(f.package(), None);
    assert_eq!(f.syntax(), Syntax::Proto2);
}

#[test]
fn file_hydrate_refuses_unknown_syntax() {
    let mut f = FileInner::default();
    let r = f.hydrate(hydrate_input(Some("editions")));
    assert_eq!(r.unwrap_err(), Error::UnsupportedSyntax { value: "editions".to_string() });
}

#[test]
fn key_set_by_name_takes_the_last_of_a_name() {
    let s = KeySet::from_vec(vec![
        (MessageKey(1), fqn(".a.X"), "X".to_string()),
        (MessageKey(2), fqn(".a.Y"), "Y".to_string()),
        (MessageKey(3), fqn(".b.X"), "X".to_string()),
    ]);
    assert_eq!(s.by_name("X"), Some(MessageKey(3)));
    assert_eq!(s.get(1), Some(MessageKey(2)));
    assert_eq!(s.get(3), None);
}

#[test]
fn dependency_turned_around_twice_is_the_same() {
    let d = DependencyInner {
        is_used: true,
        is_public: false,
        is_weak: true,
        dependency: FileKey(1),
        dependent: FileKey(2),
    };
    let e: DependentInner = d.as_dependent_inner();
    assert_eq!(e.dependent, FileKey(2));
    assert_eq!(e.as_dependency_inner(), d);
    let dependent = Dependent {
        is_used: false,
        is_public: true,
        is_weak: false,
        dependent: FileKey(4),
        dependency: FileKey(9),
    };
    let dependency = dependent.as_dependency();
    assert_eq!(dependency.import(), FileKey(9));
    assert_eq!(dependency.imported_by(), FileKey(4));
    assert_eq!(dependent.as_file(), FileKey(4));
    assert!(dependency.is_public());
}

#[test]
fn references_are_handed_out_in_order() {
    let a = ReferenceInner {
        referrer: ReferrerKey::Field(catalyze::ast::node::FieldKey(1)),
        referent: ReferentKey::Message(MessageKey(2)),
        is_external: true,
    };
    let b = ReferenceInner::default();
    let mut refs = References::from_slice(&[a, b]);
    let first: Reference = refs.next().unwrap();
    assert!(first.referrer().is_field());
    assert_eq!(first.referent(), Referent::Message(MessageKey(2)));
    assert!(first.is_external());
    let second = refs.next().unwrap();
    assert_eq!(second.referrer(), Referrer::Field(catalyze::ast::node::FieldKey(0)));
    assert!(refs.next().is_none());
    let mut single = References::from_option(None);
    assert!(single.next().is_none());
}

#[test]
fn mutex_and_index_conversion() {
    let mut m = Mutex::new(3);
    *m.lock() += 1;
    assert_eq!(m.take(), 4);
    assert_eq!(to_i32(7), 7);
}

#[test]
fn hydrate_dependencies_stores_unknown_imports_blank() {
    let mut h = Hydrate::new();
    let me = h.file_key(fqn("main.proto"));
    let r = h.hydrate_dependencies(me, vec!["c.proto".to_string()], Vec::new(), Vec::new());
    let table = h.files.lock();
    let c = table.get(r.all[0].dependency);
    assert_eq!(c.key, r.all[0].dependency);
    assert_eq!(c.name, "");
    assert_eq!(c.syntax(), Syntax::Proto2);
    assert!(!c.is_build_target());
    assert!(c.package.is_none());
    assert!(c.dependencies.all.is_empty());
    assert_eq!(c.java_package, None);
}

#[test]
fn file_nodes_compare_field_by_field() {
    let a = FileInner::from_fqn(fqn("a.proto"));
    let b = FileInner::from_fqn(fqn("a.proto"));
    let c = FileInner::from_fqn(fqn("c.proto"));
    assert!(a == b);
    assert!(a != c);
}
