use shell_backend::greeter::greet;

#[test]
fn greets_a_plain_name() {
    assert_eq!(greet("World"), "Hello, World! You've been greeted from Rust!");
}

#[test]
fn greets_the_empty_name() {
    assert_eq!(greet(""), "Hello, ! You've been greeted from Rust!");
}

#[test]
fn keeps_formatting_characters_verbatim() {
    assert_eq!(greet("{}"), "Hello, {}! You've been greeted from Rust!");
    assert_eq!(greet("{name}"), "Hello, {name}! You've been greeted from Rust!");
    assert_eq!(greet("{{0:?}}"), "Hello, {{0:?}}! You've been greeted from Rust!");
    assert_eq!(greet("%s\\n"), "Hello, %s\\n! You've been greeted from Rust!");
}

#[test]
fn keeps_whitespace_and_line_breaks() {
    assert_eq!(greet("  a\tb\n"), "Hello,   a\tb\n! You've been greeted from Rust!");
}

#[test]
fn keeps_text_outside_ascii() {
    assert_eq!(greet("Zoë 💖"), "Hello, Zoë 💖! You've been greeted from Rust!");
}

#[test]
fn greeting_is_as_long_as_its_parts() {
    let name = "someone";
    let message = greet(name);
    assert_eq!(message.len(), "Hello, ".len() + name.len() + "! You've been greeted from Rust!".len());
    assert!(message.starts_with("Hello, someone"));
    assert!(message.ends_with("someone! You've been greeted from Rust!"));
}
