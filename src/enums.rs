//! Enums, `Option`, and `match`.
use vstd::prelude::*;
use vstd::string::StringExecFns;

verus! {

/// The two versions of IP address.
#[derive(Debug, Clone, Copy, PartialEq, Eq, Structural)]
pub enum IpAddrKind {
    V4,
    V6,
}

fn route(ip_kind: IpAddrKind) {
}

/// An address together with its kind.
pub struct IpAddr {
    pub kind: IpAddrKind,
    pub address: String,
}

/// Enum values, passed around and stored in a struct.
pub fn enum_values() {
    let four = IpAddrKind::V4;
    let six = IpAddrKind::V6;
    route(four);
    route(six);
    let home = IpAddr { kind: IpAddrKind::V4, address: String::from_str("127.0.0.1") };
    let loopback = IpAddr { kind: IpAddrKind::V6, address: String::from_str("::1") };
    assert(home.kind != loopback.kind);
}

/// An address whose variants carry the text directly.
pub enum IpAddrText {
    V4(String),
    V6(String),
}

/// Data stored in the variants themselves.
pub fn concise_values() {
    let home = IpAddrText::V4(String::from_str("127.0.0.1"));
    let loopback = IpAddrText::V6(String::from_str("::1"));
}

/// An address whose variants carry data of different shapes.
pub enum IpAddrParts {
    V4(u8, u8, u8, u8),
    V6(String),
}

/// Variants with different kinds and amounts of data.
pub fn multiple_components() {
    let home = IpAddrParts::V4(127, 0, 0, 1);
    let loopback = IpAddrParts::V6(String::from_str("::1"));
    assert(home is V4 && home->V4_0 == 127);
}

/// A message of one of four kinds.
pub enum Message {
    Quit,
    Move { x: i32, y: i32 },
    Write(String),
    ChangeColor(i32, i32, i32),
}

impl Message {
    /// Handles the message; every kind is accepted.
    pub fn call(&self) {
    }
}

/// One enum in place of four structs, with a method on it.
pub fn compared_to_struct() {
    let m = Message::Write(String::from_str("hello"));
    m.call();
}

/// `Option` in place of null: present and absent values.
pub fn null_example() {
    let some_number: Option<i32> = Some(5);
    let some_string: Option<&str> = Some("a string");
    let absent_number: Option<i32> = None;
    let x: i8 = 5;
    let y: Option<i8> = Some(5);
    assert(y == Some(x));
}

/// Adds one to a present value; an absent value stays absent.
pub fn plus_one(x: Option<i32>) -> (r: Option<i32>)
    requires
        x matches Some(i) ==> i < i32::MAX,
    ensures
        r == match x {
            None => None,
            Some(i) => Some((i + 1) as i32),
        },
{
    match x {
        None => None,
        Some(i) => Some(i + 1),
    }
}

/// `plus_one` on a present and on an absent value.
pub fn option_example() {
    let five: Option<i32> = Some(5);
    let six = plus_one(five);
    let none = plus_one(None);
    assert(six == Some(6i32));
    assert(none is None);
}

/// The state named on a state quarter.
#[derive(Debug, Clone, Copy, PartialEq, Eq, Structural)]
pub enum UsState {
    Alabama,
    Alaska,
}

/// A US coin.
#[derive(Debug, Clone, Copy, PartialEq, Eq, Structural)]
pub enum Coin {
    Penny,
    Nickel,
    Dime,
    Quarter(UsState),
}

pub open spec fn spec_value_in_cents(coin: Coin) -> u8 {
    match coin {
        Coin::Penny => 1,
        Coin::Nickel => 5,
        Coin::Dime => 10,
        Coin::Quarter(_) => 25,
    }
}

/// The value of `coin` in cents.
pub fn value_in_cents(coin: Coin) -> (r: u8)
    ensures
        r == spec_value_in_cents(coin),
{
    match coin {
        Coin::Penny => 1,
        Coin::Nickel => 5,
        Coin::Dime => 10,
        Coin::Quarter(state) => 25,
    }
}

} // verus!
