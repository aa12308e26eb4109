use canberra_core::name::derive_file_name;
use canberra_core::name::derive_type_name;

#[test]
fn type_name_strips_qualification() {
    assert_eq!(derive_type_name(b"app::shapes::Circle"), b"Circle".to_vec());
    assert_eq!(derive_type_name(b"Circle"), b"Circle".to_vec());
    assert_eq!(derive_type_name(b"core::widgets::ColorRole"), b"ColorRole".to_vec());
}

#[test]
fn type_name_same_bare_name_same_result() {
    let a = derive_type_name(b"alpha::ui::Button");
    let b = derive_type_name(b"beta::controls::widgets::Button");
    assert_eq!(a, b);
    assert_eq!(a, b"Button".to_vec());
}

#[test]
fn type_name_is_stable_across_calls() {
    let first = derive_type_name(b"app::shapes::Circle");
    let second = derive_type_name(b"app::shapes::Circle");
    assert_eq!(first, second);
}

#[test]
fn file_name_strips_directory_and_extension() {
    assert_eq!(derive_file_name(b"a/b/c.qml"), b"c".to_vec());
    assert_eq!(derive_file_name(b"c.qml"), b"c".to_vec());
    assert_eq!(derive_file_name(b"c"), b"c".to_vec());
}

#[test]
fn file_name_of_resource_url() {
    assert_eq!(derive_file_name(b"qrc:/ui/About.qml"), b"About".to_vec());
    assert_eq!(derive_file_name(b"qrc:/canberra/app/qml/windows/About.qml"), b"About".to_vec());
}

#[test]
fn file_name_stops_at_first_dot() {
    assert_eq!(derive_file_name(b"ui/About.ui.qml"), b"About".to_vec());
}
