use workpool::adder::{add, add_two, greeting, internal_adder, Guess};

#[test]
fn exploration() {
    let result = add(2, 2);
    assert_eq!(result, 4);
}

#[test]
fn it_works() -> Result<(), String> {
    if 2 + 2 == 4 {
        Ok(())
    } else {
        Err(String::from("two plus two does not equal four"))
    }
}

#[test]
fn greeting_contains_name() {
    let result = greeting("Carol");
    assert!(
        result.contains("Carol"),
        "Greeting did not contain name, value was `{}`",
        result
    );
}

#[test]
fn internal() {
    assert_eq!(4, internal_adder(2, 2));
}

#[test]
fn it_adds_two() {
    assert_eq!(4, add_two(2));
}

#[test]
fn greeting_is_exact() {
    assert_eq!(greeting("Carol"), "Hello Carol!");
}

#[test]
fn guess_accepts_the_whole_range() {
    let _ = Guess::new(1);
    let _ = Guess::new(50);
    let _ = Guess::new(100);
}
