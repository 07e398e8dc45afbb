use keyscripten::flags::{register_constants, MASK_COMMAND, SIGNIFICANT_MODIFIERS, MASK_CONTROL, MASK_SHIFT, MASK_ALTERNATE};
use keyscripten::keycode::{get_keycode, name_matches, script_key_constants};

#[test]
fn keycode_test_get_keycode() {
    assert_eq!(get_keycode("caps_lock"), Some(57));
    assert_eq!(get_keycode("shift_left"), Some(56));
    assert_eq!(get_keycode("a"), Some(0));
    assert_eq!(get_keycode("A"), Some(0));
    assert_eq!(get_keycode("non_existing_key"), None);
}

#[test]
fn keycode_aliases_and_symbols() {
    assert_eq!(get_keycode("return"), Some(36));
    assert_eq!(get_keycode("enter"), Some(36));
    assert_eq!(get_keycode("\\"), Some(42));
    assert_eq!(get_keycode("'"), Some(39));
    assert_eq!(get_keycode("f10"), Some(109));
    assert_eq!(get_keycode(""), None);
}

#[test]
fn name_matching_folds_upper_case_only() {
    assert!(name_matches("SPACE", "space"));
    assert!(!name_matches("space", "SPACE"));
    assert!(!name_matches("spac", "space"));
}

#[test]
fn script_key_constants_table() {
    let table = script_key_constants();
    assert_eq!(table.len(), 78);
    assert_eq!(table[0], ("ALT", 58));
    assert!(table.contains(&("UP_ARROW", 126)));
    assert_eq!(table[table.len() - 1], ("SLASH", 44));
}

#[test]
fn script_constants_table() {
    let constants = register_constants();
    assert_eq!(constants.len(), 13);
    assert_eq!(constants[0], ("kCGEventKeyDown", 10));
    assert!(constants.contains(&("kCGEventFlagMaskCommand", MASK_COMMAND)));
    assert_eq!(SIGNIFICANT_MODIFIERS, MASK_CONTROL | MASK_SHIFT | MASK_ALTERNATE | MASK_COMMAND);
}
