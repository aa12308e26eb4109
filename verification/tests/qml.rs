use canberra_core::qml::is_valid_uri;
use canberra_core::qml::Module;
use canberra_core::registry::InstanceState;
use canberra_core::registry::Registry;
use canberra_core::registry::TypeMetadata;
use canberra_core::version::Version;

fn circle_metadata() -> TypeMetadata {
    TypeMetadata {
        full_name: b"shapes::Circle".to_vec(),
        object_size: 64,
        type_id: 7,
        meta_object: 0x1000,
    }
}

#[test]
fn uri_validity() {
    assert!(is_valid_uri(b"org.example.shapes"));
    assert!(!is_valid_uri(b"org\0example"));
    assert!(!is_valid_uri(&[200u8]));
}

#[test]
fn new_registers_namespace() {
    let mut host = Registry::new();
    let m = Module::new(&mut host, b"org.example.shapes".to_vec(), Version::new(1, 0, 0));
    assert_eq!(m.uri, b"org.example.shapes".to_vec());
    assert_eq!(host.modules.len(), 1);
    assert_eq!(host.modules[0].uri, b"org.example.shapes".to_vec());
    assert_eq!(host.modules[0].version_major, 1);
    assert_eq!(host.modules[0].version_minor, 0);
    assert_eq!(host.types.len(), 0);
}

#[test]
fn new_versionless_defaults_to_one_zero() {
    let mut host = Registry::new();
    let m = Module::new_versionless(&mut host, b"com.whs31.canberra.qml.windows".to_vec());
    assert_eq!(m.version, Version::new(1, 0, 0));
    assert_eq!(host.modules[0].version_major, 1);
    assert_eq!(host.modules[0].version_minor, 0);
}

#[test]
fn component_registers_circle_under_derived_name() {
    let mut host = Registry::new();
    let m = Module::new(&mut host, b"org.example.shapes".to_vec(), Version::new(1, 0, 0));
    m.component(&mut host, circle_metadata(), None);
    assert_eq!(host.types.len(), 1);
    let d = &host.types[0];
    assert_eq!(d.element_name, b"Circle".to_vec());
    assert_eq!(d.uri, b"org.example.shapes".to_vec());
    assert_eq!(d.version_major, 1);
    assert_eq!(d.version_minor, 0);
    assert_eq!(d.type_id, 7);
    assert_eq!(d.object_size, 64);
    assert_eq!(d.meta_object, 0x1000);
    assert!(d.creator.is_some());
    assert!(d.no_creation_reason.is_none());
    assert_eq!(d.structure_version, 0);
    assert_eq!(d.parser_status_cast, -1);
    assert_eq!(d.value_source_cast, -1);
    assert_eq!(d.value_interceptor_cast, -1);
    assert_eq!(d.revision, 0);
}

#[test]
fn component_prefers_explicit_name() {
    let mut host = Registry::new();
    let m = Module::new(&mut host, b"org.example.shapes".to_vec(), Version::new(1, 0, 0));
    m.component(&mut host, circle_metadata(), Some(b"Disc".to_vec()));
    assert_eq!(host.types[0].element_name, b"Disc".to_vec());
}

#[test]
fn two_registrations_make_two_entries() {
    let mut host = Registry::new();
    let m = Module::new(&mut host, b"org.example.shapes".to_vec(), Version::new(1, 0, 0));
    m.component(&mut host, circle_metadata(), Some(b"CircleA".to_vec()));
    m.component(&mut host, circle_metadata(), Some(b"CircleB".to_vec()));
    assert_eq!(host.types.len(), 2);
    assert_eq!(host.types[0].element_name, b"CircleA".to_vec());
    assert_eq!(host.types[1].element_name, b"CircleB".to_vec());
}

#[test]
fn file_registers_about_under_derived_name() {
    let mut host = Registry::new();
    let m = Module::new(&mut host, b"org.example.ui".to_vec(), Version::new(2, 1, 0));
    m.file(&mut host, b"qrc:/ui/About.qml".to_vec(), None);
    assert_eq!(host.files.len(), 1);
    let f = &host.files[0];
    assert_eq!(f.element_name, b"About".to_vec());
    assert_eq!(f.url, b"qrc:/ui/About.qml".to_vec());
    assert_eq!(f.uri, b"org.example.ui".to_vec());
    assert_eq!(f.version_major, 2);
    assert_eq!(f.version_minor, 1);
    assert_eq!(host.types.len(), 0);
}

#[test]
fn file_prefers_explicit_name() {
    let mut host = Registry::new();
    let m = Module::new(&mut host, b"org.example.ui".to_vec(), Version::new(2, 1, 0));
    m.file(&mut host, b"qrc:/ui/About.qml".to_vec(), Some(b"Info".to_vec()));
    assert_eq!(host.files[0].element_name, b"Info".to_vec());
}

#[test]
fn component_derives_from_unqualified_identifier() {
    let mut host = Registry::new();
    let m = Module::new(&mut host, b"org.example.shapes".to_vec(), Version::new(1, 0, 0));
    let meta = TypeMetadata {
        full_name: b"Square".to_vec(),
        object_size: 32,
        type_id: 3,
        meta_object: 0x3000,
    };
    m.component(&mut host, meta, None);
    assert_eq!(host.types[0].element_name, b"Square".to_vec());
}

#[test]
fn uncreatable_derives_name_when_none_is_given() {
    let mut host = Registry::new();
    let m = Module::new(&mut host, b"org.example.ui".to_vec(), Version::new(1, 0, 0));
    let meta = TypeMetadata {
        full_name: b"core::widgets::ColorRole".to_vec(),
        object_size: 4,
        type_id: 9,
        meta_object: 0x2000,
    };
    m.uncreatable(&mut host, meta, None);
    assert_eq!(host.types[0].element_name, b"ColorRole".to_vec());
}

#[test]
fn uncreatable_supplies_no_creator_and_a_reason() {
    let mut host = Registry::new();
    let m = Module::new(&mut host, b"org.example.ui".to_vec(), Version::new(1, 0, 0));
    let meta = TypeMetadata {
        full_name: b"core::widgets::ColorRole".to_vec(),
        object_size: 4,
        type_id: 9,
        meta_object: 0x2000,
    };
    m.uncreatable(&mut host, meta, Some(b"ColorRole".to_vec()));
    assert_eq!(host.types.len(), 1);
    let d = &host.types[0];
    assert_eq!(d.element_name, b"ColorRole".to_vec());
    assert!(d.creator.is_none());
    let reason = d.no_creation_reason.as_ref().expect("an uncreatable type carries a reason");
    assert!(!reason.is_empty());
    assert_eq!(reason, &b"access to enums & flags only".to_vec());
}

#[test]
fn construction_then_release_runs_destructor_exactly_once() {
    let mut host = Registry::new();
    let m = Module::new(&mut host, b"org.example.shapes".to_vec(), Version::new(1, 0, 0));
    m.component(&mut host, circle_metadata(), None);
    let id = host.create_instance(0, true).expect("a creatable type yields an instance");
    assert_eq!(id, 0);
    assert_eq!(host.instances.len(), 1);
    assert_eq!(host.instances[0].state, InstanceState::Live);
    assert_eq!(host.instances[0].destructor_runs, 0);
    assert_eq!(host.instances[0].type_id, 7);
    host.release_instance(0);
    assert_eq!(host.instances[0].state, InstanceState::Destroyed);
    assert_eq!(host.instances[0].destructor_runs, 1);
}

#[test]
fn failed_construction_yields_no_instance() {
    let mut host = Registry::new();
    let m = Module::new(&mut host, b"org.example.shapes".to_vec(), Version::new(1, 0, 0));
    m.component(&mut host, circle_metadata(), None);
    assert!(host.create_instance(0, false).is_none());
    assert_eq!(host.instances.len(), 0);
}

#[test]
fn each_instance_is_released_independently() {
    let mut host = Registry::new();
    let m = Module::new(&mut host, b"org.example.shapes".to_vec(), Version::new(1, 0, 0));
    m.component(&mut host, circle_metadata(), None);
    let first = host.create_instance(0, true).unwrap();
    let second = host.create_instance(0, true).unwrap();
    assert_eq!(first, 0);
    assert_eq!(second, 1);
    host.release_instance(second);
    assert_eq!(host.instances[0].state, InstanceState::Live);
    assert_eq!(host.instances[1].state, InstanceState::Destroyed);
    assert_eq!(host.instances[1].destructor_runs, 1);
}
