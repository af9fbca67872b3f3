use workpool::aggregator::{returns_summarizable, NewsArticle, Pair, Summary, Tweet};
use workpool::coins::{plus_one, value_in_cents, Coin, Message, UsState};
use workpool::counters::{Counter, Dog, Iterator};
use workpool::fibonacci::fib;
use workpool::functions::{add_one, do_twice, five, returns_closure};
use workpool::guess::{last_char_of_first_line, Guess};
use workpool::guessing_game::{evaluate_guess, new_secret, parse_guess, GuessOutcome};
use workpool::inventory::{Inventory, ShirtColor};
use workpool::lifetimes::{longest, ImportantExcerpt};
use workpool::ownership::{
    calculate_length, calculate_length_with_reference, change, first_word, gives_ownership,
    no_dangle, takes_and_gives_back,
};
use workpool::pointers::MyBox;
use workpool::restaurant::{add_to_waitlist, fix_incorrect_order, Appetizer, Breakfast};
use workpool::shapes::{build_user, Rectangle};

#[test]
fn fib_matches_the_sequence() {
    assert_eq!(fib(7), 8);
    assert_eq!(fib(5), 3);
    assert_eq!(fib(1), 0);
    assert_eq!(fib(0), 0);
    assert_eq!(fib(2), 1);
    assert_eq!(fib(8), 13);
}

#[test]
fn coins_are_appraised() {
    assert_eq!(value_in_cents(Coin::Penny), 1);
    assert_eq!(value_in_cents(Coin::Nickel), 5);
    assert_eq!(value_in_cents(Coin::Dime), 10);
    assert_eq!(value_in_cents(Coin::Quarter(UsState::Alaska)), 25);
}

#[test]
fn plus_one_steps_or_stays_empty() {
    assert_eq!(plus_one(Some(5)), Some(6));
    assert_eq!(plus_one(None), None);
    let m = Message::Write(String::from("hello"));
    m.call();
}

#[test]
fn guess_round_trips_its_value() {
    let g = Guess::new(42);
    assert_eq!(g.value(), 42);
}

#[test]
fn last_char_reads_the_first_line() {
    assert_eq!(last_char_of_first_line("Hello\nworld"), Some('o'));
    assert_eq!(last_char_of_first_line("abc"), Some('c'));
    assert_eq!(last_char_of_first_line(""), None);
    assert_eq!(last_char_of_first_line("\nabc"), None);
    assert_eq!(last_char_of_first_line("ab\r\ncd"), Some('b'));
}

#[test]
fn parse_guess_reads_digits_only() {
    assert_eq!(parse_guess("123"), Some(123));
    assert_eq!(parse_guess("0"), Some(0));
    assert_eq!(parse_guess(""), None);
    assert_eq!(parse_guess("12a"), None);
    assert_eq!(parse_guess("-5"), None);
    assert_eq!(parse_guess("4294967295"), Some(u32::MAX));
    assert_eq!(parse_guess("4294967296"), None);
}

#[test]
fn guesses_are_compared_to_the_secret() {
    assert_eq!(evaluate_guess(10, 50), GuessOutcome::TooSmall);
    assert_eq!(evaluate_guess(90, 50), GuessOutcome::TooBig);
    assert_eq!(evaluate_guess(50, 50), GuessOutcome::Win);
}

#[test]
fn the_secret_stays_in_range() {
    for _ in 0..50 {
        let s = new_secret();
        assert!((1..=100).contains(&s));
    }
}

#[test]
fn first_word_stops_at_the_space() {
    assert_eq!(first_word("hello world"), "hello");
    assert_eq!(first_word("hello"), "hello");
    assert_eq!(first_word(" leading"), "");
}

#[test]
fn longest_picks_the_longer_string() {
    assert_eq!(longest("long string is long", "xyz"), "long string is long");
    assert_eq!(longest("xyz", "long string is long"), "long string is long");
    assert_eq!(longest("abc", "xyz"), "xyz");
}

#[test]
fn excerpts_have_a_level() {
    let novel = String::from("Call me Ishmael. Some years ago...");
    let first_sentence = novel.split('.').next().expect("Could not find a '.'");
    let i = ImportantExcerpt {
        part: first_sentence,
    };
    assert_eq!(i.level(), 3);
}

#[test]
fn strings_move_and_come_back() {
    assert_eq!(gives_ownership(), "yours");
    assert_eq!(takes_and_gives_back(String::from("hello")), "hello");
    assert_eq!(no_dangle(), "hello");
    let (s, len) = calculate_length(String::from("hello"));
    assert_eq!(s, "hello");
    assert_eq!(len, 5);
    assert_eq!(calculate_length_with_reference(&String::from("hello")), 5);
    let mut s = String::from("hello");
    change(&mut s);
    assert_eq!(s, "hello, world");
}

#[test]
fn rectangles_measure_and_compare() {
    let rect1 = Rectangle {
        width: 30,
        height: 50,
    };
    let rect2 = Rectangle {
        width: 10,
        height: 40,
    };
    let rect3 = Rectangle {
        width: 60,
        height: 45,
    };
    assert_eq!(rect1.area(), 1500);
    assert!(rect1.can_hold(&rect2));
    assert!(!rect1.can_hold(&rect3));
    let sq = Rectangle::square(5);
    assert_eq!(sq.area(), 25);
}

#[test]
fn users_are_built_active() {
    let u = build_user(
        String::from("someone@example.com"),
        String::from("someusername123"),
    );
    assert!(u.active);
    assert_eq!(u.username, "someusername123");
    assert_eq!(u.email, "someone@example.com");
    assert_eq!(u.sign_in_count, 1);
}

#[test]
fn giveaway_honours_the_preference() {
    let store = Inventory {
        shirts: vec![ShirtColor::Blue, ShirtColor::Red, ShirtColor::Blue],
    };
    assert_eq!(store.giveaway(Some(ShirtColor::Red)), ShirtColor::Red);
    assert_eq!(store.giveaway(None), ShirtColor::Blue);
}

#[test]
fn most_stocked_breaks_ties_towards_blue() {
    let even = Inventory {
        shirts: vec![ShirtColor::Red, ShirtColor::Blue],
    };
    assert_eq!(even.most_stocked(), ShirtColor::Blue);
    let red_heavy = Inventory {
        shirts: vec![ShirtColor::Red, ShirtColor::Blue, ShirtColor::Red],
    };
    assert_eq!(red_heavy.most_stocked(), ShirtColor::Red);
    let empty = Inventory { shirts: vec![] };
    assert_eq!(empty.most_stocked(), ShirtColor::Blue);
}

#[test]
fn summaries_read_as_expected() {
    let tweet = returns_summarizable();
    assert_eq!(
        tweet.summarize(),
        "horse_ebooks: of course, as you probably already know, people"
    );
    assert_eq!(tweet.summarize_author(), "@horse_ebooks");
    let article = NewsArticle {
        headline: String::from("Penguins win the Stanley Cup Championship!"),
        location: String::from("Pittsburgh, PA, USA"),
        author: String::from("Iceburgh"),
        content: String::from("The Pittsburgh Penguins once again are the best hockey team in the NHL."),
    };
    assert_eq!(article.summarize(), "(Read more...)");
    assert_eq!(article.summarize_author(), "Author: Iceburgh");
}

#[test]
fn tweets_summarize_themselves() {
    let tweet = Tweet {
        username: String::from("horse_ebooks"),
        content: String::from("of course, as you probably already know, people"),
        reply: false,
        retweet: false,
    };
    assert_eq!(
        tweet.summarize(),
        "horse_ebooks: of course, as you probably already know, people"
    );
}

#[test]
fn pairs_keep_their_parts() {
    let _p = Pair::new(5, 10);
}

#[test]
fn counters_step_to_five() {
    let mut c = Counter::new();
    assert_eq!(c.next(), Some(1));
    assert_eq!(c.next(), Some(2));
    assert_eq!(c.next(), Some(3));
    assert_eq!(c.next(), Some(4));
    assert_eq!(c.next(), Some(5));
    assert_eq!(c.next(), None);
    assert_eq!(c.next(), None);
}

#[test]
fn dogs_have_two_baby_names() {
    assert_eq!(Dog::baby_name(), "Spot");
    assert_eq!(<Dog as workpool::counters::Animal>::baby_name(), "puppy");
}

#[test]
fn functions_as_values() {
    assert_eq!(do_twice(add_one, 5), 12);
    let f = returns_closure();
    assert_eq!(f(1), 2);
    assert_eq!(five(), 5);
}

#[test]
fn boxes_hold_their_value() {
    let b = MyBox::new(5);
    assert_eq!(b.0, 5);
    let m = MyBox::new(String::from("Rust"));
    assert_eq!(m.0, "Rust");
}

#[test]
fn breakfast_comes_with_peaches() {
    let mut meal = Breakfast::summer("Rye");
    assert_eq!(meal.toast, "Rye");
    meal.toast = String::from("Wheat");
    assert_eq!(meal.toast, "Wheat");
    let _order1 = Appetizer::Soup;
    let _order2 = Appetizer::Salad;
    add_to_waitlist();
    fix_incorrect_order();
}
