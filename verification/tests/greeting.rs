use monitor_placement::greeting::greet;

#[test]
fn greet_wraps_the_name() {
    assert_eq!(greet("World"), "Hello, World! You've been greeted from Rust!");
}

#[test]
fn greet_with_empty_name_keeps_the_frame() {
    assert_eq!(greet(""), "Hello, ! You've been greeted from Rust!");
}
