use rust_tour::structs::Rectangle;
use rust_tour::testing::{add_two, greeting, Guess};

#[test]
fn tests_it_works() {
    assert_eq!(2 + 2, 4);
}

#[test]
fn larger_can_hold_smaller() {
    let larger = Rectangle { width: 8, height: 7 };
    let smaller = Rectangle { width: 5, height: 1 };

    assert!(larger.can_hold(&smaller));
}

#[test]
fn smaller_cannot_hold_larger() {
    let larger = Rectangle { width: 8, height: 7 };
    let smaller = Rectangle { width: 5, height: 1 };
    assert!(!smaller.can_hold(&larger));
    assert!(!larger.can_hold(&larger));
}

#[test]
fn it_adds_two() {
    assert_eq!(4, add_two(2));
}

#[test]
fn greeting_contains_name() {
    let result = greeting("Carl");
    assert!(
        result.contains("Carl"),
        "Greeting did not contain name, instead: `{}`",
        result
    );
}

#[test]
fn greeting_is_exact() {
    assert_eq!(greeting("Carl"), "Hello Carl");
    assert_eq!(greeting(""), "Hello ");
}

#[test]
fn guess_in_range_is_accepted() {
    let _low = Guess::new(1);
    let _high = Guess::new(100);
}

#[test]
fn it_works2() -> Result<(), String> {
    if 2 + 2 == 4 {
        Ok(())
    } else {
        Err(String::from("2 + 2 != four"))
    }
}
