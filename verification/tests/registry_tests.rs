use method_export::registry::{ClassInfo, ClassRegistry};

#[test]
fn register_then_lookup() {
    let mut reg = ClassRegistry::new();
    assert!(reg.class_name(7).is_none());
    let prev = reg.register_class_as(7, "Player".to_string());
    assert!(prev.is_none());
    assert_eq!(reg.class_name(7), Some("Player".to_string()));
}

#[test]
fn overwrite_returns_prior_and_keeps_latest() {
    let mut reg = ClassRegistry::new();
    let first = reg.register_class_as(1, "A".to_string());
    assert!(first.is_none());
    let second = reg.register_class_as(1, "B".to_string());
    match second {
        Some(ClassInfo { name }) => assert_eq!(name, "A"),
        None => panic!("overwrite must hand back the earlier entry"),
    }
    assert_eq!(reg.class_name(1), Some("B".to_string()));
}

#[test]
fn cleanup_forgets_every_entry() {
    let mut reg = ClassRegistry::new();
    reg.register_class_as(1, "A".to_string());
    reg.register_class_as(2, "B".to_string());
    reg.register_class_as(3, "C".to_string());
    reg.cleanup();
    assert!(reg.class_name(1).is_none());
    assert!(reg.class_name(2).is_none());
    assert!(reg.class_name(3).is_none());
}

#[test]
fn name_or_default_uses_fallback_only_when_absent() {
    let mut reg = ClassRegistry::new();
    reg.register_class_as(9, "Enemy".to_string());
    assert_eq!(reg.class_name_or_default(9, "fallback".to_string()), "Enemy");
    assert_eq!(
        reg.class_name_or_default(10, "some::path::Type".to_string()),
        "some::path::Type"
    );
}

#[test]
fn with_class_info_hands_out_the_entry() {
    let mut reg = ClassRegistry::new();
    reg.register_class_as(4, "Npc".to_string());
    let len = reg.with_class_info(4, |ci: &ClassInfo| ci.name.len());
    assert_eq!(len, Some(3));
    let missing = reg.with_class_info(5, |ci: &ClassInfo| ci.name.len());
    assert_eq!(missing, None);
}
