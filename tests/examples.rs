use rust_tour::collections::{add_to_each, count_words, same_text, word_counts};
use rust_tour::enums::{plus_one, value_in_cents, Coin, UsState};
use rust_tour::errors::Guess;
use rust_tour::generics::{first_sentence, largest_char, largest_i32, longest, Pair, Point, Point2};
use rust_tour::references::{calculate_length, change};
use rust_tour::restaurant::Breakfast;
use rust_tour::slice::{find_byte, first_word, first_word_independent, first_word_str};
use rust_tour::structs::{area1, area2, area3, build_user, Rectangle};
use rust_tour::traits::default::{Summary as AuthorSummary, Tweet as AuthorTweet};
use rust_tour::traits::{NewsArticle, Summary, Tweet};

#[test]
fn first_word_of_two_words() {
    let s = String::from("hello world");
    assert_eq!(first_word_independent(&s), 5);
    assert_eq!(first_word(&s), "hello");
    assert_eq!(first_word_str("slice better"), "slice");
}

#[test]
fn first_word_without_space_is_whole_string() {
    let s = String::from("hello");
    assert_eq!(first_word_independent(&s), 5);
    assert_eq!(first_word(&s), "hello");
    assert_eq!(first_word(&String::new()), "");
    assert_eq!(first_word_independent(&String::from(" lead")), 0);
}

#[test]
fn first_word_of_non_ascii_text() {
    let s = String::from("héllo wörld");
    assert_eq!(first_word(&s), "héllo");
    assert_eq!(first_word_independent(&s), 6);
}

#[test]
fn find_byte_finds_first() {
    assert_eq!(find_byte(b"a.b.c", b'.'), 1);
    assert_eq!(find_byte(b"abc", b'.'), 3);
}

#[test]
fn first_sentence_of_novel() {
    assert_eq!(first_sentence("Once upon a time. There was a boy."), "Once upon a time");
    assert_eq!(first_sentence("No stop"), "No stop");
}

#[test]
fn largest_values() {
    assert_eq!(largest_i32(&[34, 50, 25, 100, 65]), 100);
    assert_eq!(largest_i32(&[102, 34, 6000, 89, 54, 2, 43, 8]), 6000);
    assert_eq!(largest_i32(&[-3]), -3);
    assert_eq!(largest_char(&['y', 'm', 'a', 'q']), 'y');
}

#[test]
fn longest_prefers_longer_then_second() {
    assert_eq!(longest("long string is long", "xyz"), "long string is long");
    assert_eq!(longest("ab", "cd"), "cd");
    assert_eq!(longest("a", "bcd"), "bcd");
}

#[test]
fn generic_points_and_pairs() {
    let p = Point { x: 1, y: 2 };
    assert_eq!(*p.x(), 1);
    let p1 = Point2 { x: 5, y: 10.4 };
    let p2 = Point2 { x: "Hello", y: 'c' };
    let p3 = p1.mixup(p2);
    assert_eq!(p3.x, 5);
    assert_eq!(p3.y, 'c');
    let pair = Pair::new(3, 4);
    assert_eq!((pair.x, pair.y), (3, 4));
}

#[test]
fn coin_values() {
    assert_eq!(value_in_cents(Coin::Penny), 1);
    assert_eq!(value_in_cents(Coin::Nickel), 5);
    assert_eq!(value_in_cents(Coin::Dime), 10);
    assert_eq!(value_in_cents(Coin::Quarter(UsState::Alaska)), 25);
}

#[test]
fn plus_one_on_options() {
    assert_eq!(plus_one(Some(5)), Some(6));
    assert_eq!(plus_one(None), None);
}

#[test]
fn guess_value_is_kept() {
    assert_eq!(Guess::new(42).value(), 42);
}

#[test]
fn rectangle_areas() {
    assert_eq!(area1(30, 50), 1500);
    assert_eq!(area2((30, 50)), 1500);
    let r = Rectangle { width: 30, height: 50 };
    assert_eq!(area3(&r), 1500);
    assert_eq!(r.area(), 1500);
    assert_eq!(Rectangle::square(3), Rectangle { width: 3, height: 3 });
    let rect1 = Rectangle { width: 30, height: 50 };
    assert!(rect1.can_hold(&Rectangle { width: 10, height: 40 }));
    assert!(!rect1.can_hold(&Rectangle { width: 60, height: 45 }));
}

#[test]
fn built_user_is_active() {
    let u = build_user(String::from("a@b.c"), String::from("abc"));
    assert_eq!(u.email, "a@b.c");
    assert_eq!(u.username, "abc");
    assert!(u.active);
    assert_eq!(u.sign_in_count, 1);
}

#[test]
fn borrowing_length_and_change() {
    let s = String::from("hello");
    assert_eq!(calculate_length(&s), 5);
    assert_eq!(calculate_length(&String::from("é")), 2);
    let mut t = String::from("basic borrow");
    change(&mut t);
    assert_eq!(t, "basic borrow, fn");
}

#[test]
fn add_fifty_to_each() {
    let mut v = vec![100, 32, 57];
    add_to_each(&mut v, 50);
    assert_eq!(v, vec![150, 82, 107]);
}

#[test]
fn summaries() {
    let tweet = Tweet {
        username: String::from("pwn_ebooks"),
        content: String::from("This contest is the best"),
        reply: false,
        retweet: false,
    };
    assert_eq!(tweet.summarize(), "pwn_ebooks: This contest is the best");
    let article = NewsArticle {
        headline: String::from("Title"),
        location: String::from("location"),
        author: String::from("author"),
        content: String::from("This is the content body"),
    };
    assert_eq!(article.summarize(), "(Read more...)");
    let t2 = AuthorTweet {
        username: String::from("horse_ebooks"),
        content: String::from("of course"),
        reply: false,
        retweet: false,
    };
    assert_eq!(t2.summarize_author(), "@horse_ebooks");
    assert_eq!(AuthorSummary::summarize(&t2), "(Read more from @horse_ebooks...)");
}

#[test]
fn summer_breakfast() {
    let meal = Breakfast::summer("Rye");
    assert_eq!(meal.toast, "Rye");
    assert_eq!(meal.seasonal_fruit(), "peaches");
}

#[test]
fn counts_words_of_text() {
    assert_eq!(
        word_counts("Hello world wonderful world"),
        vec![("Hello", 1), ("world", 2), ("wonderful", 1)]
    );
    assert_eq!(word_counts("  a\tb\n a  "), vec![("a", 2), ("b", 1)]);
    assert_eq!(word_counts("   "), vec![]);
}

#[test]
fn counts_words_of_list() {
    let words = vec!["x", "y", "x", "x"];
    assert_eq!(count_words(&words), vec![("x", 3), ("y", 1)]);
    assert_eq!(count_words(&vec![]), vec![]);
}

#[test]
fn compares_text() {
    assert!(same_text("héllo", "héllo"));
    assert!(!same_text("hello", "hellO"));
    assert!(!same_text("ab", "abc"));
}
