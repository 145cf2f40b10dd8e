use flypy_sync::paths::{BACK_FILE, FILE_NAME, RIME_DIR};

#[test]
fn files_are_named_as_the_input_method_expects() {
    assert_eq!(RIME_DIR, "Rime");
    assert_eq!(FILE_NAME, "flypy_user.txt");
    assert_eq!(BACK_FILE, "flypy_user.txt.back");
}

#[test]
fn backup_is_a_sibling_of_its_own() {
    assert_eq!(BACK_FILE, format!("{}.back", FILE_NAME));
    assert_ne!(BACK_FILE, FILE_NAME);
}
