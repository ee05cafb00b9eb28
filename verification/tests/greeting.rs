use tray_shell::greeting::greet;

#[test]
fn greets_world() {
    assert_eq!(greet("World"), "Hello, World! You've been greeted from Rust!");
}

#[test]
fn greets_empty_name() {
    assert_eq!(greet(""), "Hello, ! You've been greeted from Rust!");
}

#[test]
fn greeting_keeps_the_name_as_it_is() {
    assert_eq!(
        greet("  <b>Zoë</b>\n"),
        "Hello,   <b>Zoë</b>\n! You've been greeted from Rust!"
    );
}

#[test]
fn greeting_is_longer_than_the_name_by_the_frame() {
    let name = "Ferris";
    let frame = "Hello, ".len() + "! You've been greeted from Rust!".len();
    assert_eq!(greet(name).len(), name.len() + frame);
    assert_ne!(greet(name), name);
}
