use file_sharer::error::Error;
use file_sharer::timestamp::{Civil, Timestamp};
use file_sharer::token::Token;

fn moment(year: i32, month: u8, day: u8, hour: u8, minute: u8) -> Timestamp {
    Timestamp::new(Civil {
        year,
        month,
        day,
        hour,
        minute,
        second: 0,
        nanosecond: 0,
        offset_hours: 0,
        offset_minutes: 0,
        offset_seconds: 0,
    })
    .unwrap()
}

#[test]
fn parse_takes_letters_digits_and_underscores() {
    let token = Token::parse("202203040506_0123456789ABCDEFabcdef").unwrap();
    assert_eq!(token.as_str(), "202203040506_0123456789ABCDEFabcdef");
}

#[test]
fn parse_takes_the_empty_string() {
    assert_eq!(Token::parse("").unwrap().as_str(), "");
}

#[test]
fn parse_refuses_every_other_character() {
    for text in ["a b", "a/b", "..", "a-b", "a.b", "tok\u{e9}n", "a\0", "../../etc"] {
        assert_eq!(Token::parse(text), Err(Error::InvalidToken), "{text:?}");
    }
}

#[test]
fn parse_refuses_letters_that_are_not_ascii() {
    // Alphanumeric in Unicode, but no token character.
    assert_eq!(Token::parse("\u{661}"), Err(Error::InvalidToken));
    assert_eq!(Token::parse("\u{3b1}"), Err(Error::InvalidToken));
}

#[test]
fn from_parts_writes_stamp_and_bits() {
    let stamp = moment(2022, 3, 4, 5, 6).into_filename();
    let token = Token::from_parts(&stamp, 0x0123_4567_89AB_CDEF, 0).unwrap();
    assert_eq!(token.as_str(), "202203040506_0123456789ABCDEF0000000000000000");
}

#[test]
fn from_parts_pads_and_uses_upper_case() {
    let stamp = moment(987, 12, 31, 23, 59).into_filename();
    let token = Token::from_parts(&stamp, 0xff, u64::MAX).unwrap();
    assert_eq!(token.as_str(), "098712312359_00000000000000FFFFFFFFFFFFFFFFFF");
}

#[test]
fn from_parts_refuses_years_before_zero() {
    let stamp = moment(-1, 1, 1, 0, 0).into_filename();
    assert_eq!(Token::from_parts(&stamp, 1, 2), Err(Error::InvalidToken));
}

#[test]
fn new_tokens_have_the_expected_shape() {
    let token = Token::new(moment(2024, 2, 29, 12, 30)).unwrap();
    let text = token.as_str();
    assert_eq!(text.len(), 12 + 1 + 32);
    assert!(text.starts_with("202402291230_"));
    assert!(text[13..].chars().all(|c| c.is_ascii_digit() || ('A'..='F').contains(&c)));
    assert_eq!(Token::parse(text), Ok(token.clone()));
}

#[test]
fn new_tokens_differ() {
    let now = moment(2024, 2, 29, 12, 30);
    let first = Token::new(now).unwrap();
    let second = Token::new(now).unwrap();
    assert_ne!(first, second);
}

#[test]
fn tokens_are_ordered_by_their_text() {
    let early = Token::parse("202201010000_A").unwrap();
    let late = Token::parse("202301010000_A").unwrap();
    assert!(early < late);
    assert_eq!(early, early.clone());
}
