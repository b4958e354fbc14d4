use desktop_shell::greeting::greet;

#[test]
fn greets_by_name() {
    assert_eq!(greet("World"), "Hello, World! You've been greeted from Rust!");
}

#[test]
fn greets_another_name() {
    assert_eq!(greet("Ada"), "Hello, Ada! You've been greeted from Rust!");
}

#[test]
fn greets_empty_name() {
    assert_eq!(greet(""), "Hello, ! You've been greeted from Rust!");
}

#[test]
fn greets_name_with_spaces() {
    assert_eq!(
        greet("Grace Hopper"),
        "Hello, Grace Hopper! You've been greeted from Rust!"
    );
}
