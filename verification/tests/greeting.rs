use pi_touch_app::greeting::greet;

#[test]
fn greet_world() {
    assert_eq!(greet("World"), "Hello, World! You've been greeted from Rust!");
}

#[test]
fn greet_empty_name() {
    assert_eq!(greet(""), "Hello, ! You've been greeted from Rust!");
}

#[test]
fn greet_substitution_token_kept_verbatim() {
    assert_eq!(
        greet("{name}"),
        "Hello, {name}! You've been greeted from Rust!"
    );
    assert_eq!(greet("{}"), "Hello, {}! You've been greeted from Rust!");
}

#[test]
fn greet_repeated_calls_agree() {
    let first = greet("Ada");
    let second = greet("Ada");
    assert_eq!(first, second);
    assert_eq!(first, "Hello, Ada! You've been greeted from Rust!");
}
