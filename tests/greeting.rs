use achroma::greeting::greet;

#[test]
fn greet_bob() {
    assert_eq!(greet("Bob"), String::from("Hello Bob!"));
}

#[test]
fn greet_the_world() {
    assert_eq!(greet("World"), String::from("Hello World!"));
}
