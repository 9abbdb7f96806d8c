use cloudlet::language::{Language, LogLevel};

#[test]
fn tag_name_tag_round_trip() {
    for tag in 0..3 {
        let lang = Language::from_i32(tag).unwrap();
        let name = lang.name();
        let back = Language::from_name(&name).unwrap();
        assert_eq!(back.to_i32(), tag);
    }
}

#[test]
fn names_are_lower_case() {
    assert_eq!(Language::Rust.name(), "rust");
    assert_eq!(Language::Python.name(), "python");
    assert_eq!(Language::Node.name(), "node");
}

#[test]
fn unknown_tags_are_refused() {
    assert_eq!(Language::from_i32(3), None);
    assert_eq!(Language::from_i32(5), None);
    assert_eq!(Language::from_i32(-1), None);
}

#[test]
fn unknown_names_are_refused() {
    assert_eq!(Language::from_name("Rust"), None);
    assert_eq!(Language::from_name(""), None);
    assert_eq!(Language::from_name("go"), None);
}

#[test]
fn log_levels_compare() {
    assert_ne!(LogLevel::Info, LogLevel::Debug);
}
