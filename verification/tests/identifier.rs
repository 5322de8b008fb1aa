use desknote::bootstrap::main_window_label;

/// Verifies the app identifier follows the reverse-domain convention.
#[test]
fn test_app_identifier_format() {
    let id = "com.desknote.app";
    let parts: Vec<&str> = id.split('.').collect();
    assert_eq!(parts.len(), 3, "identifier should have 3 dot-separated parts");
    assert_eq!(parts[0], "com");
    assert_eq!(parts[1], "desknote");
}

/// Smoke test: the crate links and its items are accessible.
#[test]
fn test_module_compiles() {
    assert!(true);
}

#[test]
fn main_window_label_is_main() {
    assert_eq!(main_window_label(), "main");
}
