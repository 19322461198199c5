//! Tokens: the strings that give access to one slot, and name its directory.

use vstd::prelude::*;
use crate::error::Error;
use crate::text::{chars_of, digit_char, hex16, hex_char, push_hex16};
use crate::text::{four_digits, two_digits};
use crate::timestamp::{stamp_text, year_text, Civil, FilenameTimestamp, Timestamp};

verus! {

/// A character that a token may hold: an ASCII letter, an ASCII digit, or
/// `_`.
pub open spec fn is_token_char(c: char) -> bool {
    ('0' <= c && c <= '9') || ('A' <= c && c <= 'Z') || ('a' <= c && c <= 'z') || c == '_'
}

/// Text that holds token characters only. The empty text is one.
pub open spec fn is_token_text(text: Seq<char>) -> bool {
    forall|i: int| 0 <= i < text.len() ==> is_token_char(#[trigger] text[i])
}

/// The text of a new token: a stamp, `_`, and 128 bits as 32 hexadecimal
/// digits.
pub open spec fn token_text(stamp: Seq<char>, high: u64, low: u64) -> Seq<char> {
    stamp + seq!['_'] + hex16(high) + hex16(low)
}

/// `rand::Rng::gen::<u64>` on the generator that `rand::thread_rng` hands
/// out, which `rand` marks as fit for cryptography. Nothing is claimed of
/// the bits that come back. Where the system gives the generator no seed,
/// `rand` panics.
#[verifier::external_body]
fn random_bits() -> u64 {
    let mut source: rand::rngs::ThreadRng = rand::thread_rng();
    let _secure: &dyn rand::CryptoRng = &source;
    rand::Rng::gen::<u64>(&mut source)
}

/// The digits are token characters.
proof fn lemma_digits_are_token_chars()
    ensures
        forall|d: int| 0 <= d < 10 ==> is_token_char(#[trigger] digit_char(d)),
        forall|d: int| 0 <= d < 16 ==> is_token_char(#[trigger] hex_char(d)),
{
}

/// Sixteen hexadecimal digits are token text.
proof fn lemma_hex16_is_token_text(x: u64)
    ensures
        is_token_text(hex16(x)),
{
    lemma_digits_are_token_chars();
    assert forall|i: int| 0 <= i < 16 implies is_token_char(#[trigger] hex16(x)[i]) by {
        let shift = ((15 - i) * 4) as u64;
        let d = (x >> shift) & 0xf;
        assert(d < 16) by (bit_vector)
            requires
                d == (x >> shift) & 0xf,
        ;
    }
}

/// The stamp of a moment in a year that is not before 0 is token text.
proof fn lemma_stamp_is_token_text(c: Civil)
    requires
        c.valid(),
        c.year >= 0,
    ensures
        is_token_text(stamp_text(c)),
{
    lemma_digits_are_token_chars();
    assert(is_token_text(four_digits(c.year as int)));
    lemma_two_digits_are_token_text(c.month as int);
    lemma_two_digits_are_token_text(c.day as int);
    lemma_two_digits_are_token_text(c.hour as int);
    lemma_two_digits_are_token_text(c.minute as int);
}

proof fn lemma_two_digits_are_token_text(n: int)
    requires
        0 <= n < 100,
    ensures
        is_token_text(two_digits(n)),
{
    lemma_digits_are_token_chars();
}

/// The stamp of a moment in a year before 0 starts with a minus sign, so
/// no token can be made of it.
proof fn lemma_early_stamp_is_no_token_text(c: Civil, high: u64, low: u64)
    requires
        c.year < 0,
    ensures
        !is_token_text(token_text(stamp_text(c), high, low)),
{
    let text = token_text(stamp_text(c), high, low);
    assert(!is_token_char(text[0]));
}

/// The capability to use one slot. Whoever holds the text of a token holds
/// the token. Two tokens are the same when their texts are.
#[derive(Debug, PartialEq, Eq, PartialOrd, Ord, Hash)]
pub struct Token {
    text: String,
}

impl View for Token {
    type V = Seq<char>;

    closed spec fn view(&self) -> Seq<char> {
        self.text@
    }
}

impl Clone for Token {
    fn clone(&self) -> (r: Self)
        ensures
            r@ == self@,
    {
        proof {
            use_type_invariant(self);
        }
        Token { text: self.text.clone() }
    }
}

impl Token {
    #[verifier::type_invariant]
    spec fn well_formed(self) -> bool {
        is_token_text(self.text@)
    }

    /// Takes a string as a token where every character of it is a token
    /// character.
    pub fn parse(text: &str) -> (r: Result<Token, Error>)
        ensures
            is_token_text(text@) ==> r is Ok && r->Ok_0@ == text@,
            !is_token_text(text@) ==> r == Err::<Token, Error>(Error::InvalidToken),
    {
        let chars = chars_of(text);
        let n = chars.len();
        let mut i: usize = 0;
        while i < n
            invariant
                i <= n,
                n == chars@.len(),
                chars@ == text@,
                forall|j: int| 0 <= j < i ==> is_token_char(#[trigger] text@[j]),
            decreases n - i,
        {
            let c = chars[i];
            let fits = ('0' <= c && c <= '9') || ('A' <= c && c <= 'Z') || ('a' <= c && c <= 'z')
                || c == '_';
            if !fits {
                return Err(Error::InvalidToken);
            }
            i = i + 1;
        }
        Ok(Token { text: text.to_owned() })
    }

    /// The token made of a stamp and 128 bits. A stamp of a year before 0
    /// starts with a minus sign and makes no token.
    pub fn from_parts(stamp: &FilenameTimestamp, high: u64, low: u64) -> (r: Result<Token, Error>)
        ensures
            stamp@.year >= 0 ==> r is Ok && r->Ok_0@ == token_text(stamp_text(stamp@), high, low),
            stamp@.year < 0 ==> r == Err::<Token, Error>(Error::InvalidToken),
            r is Ok <==> is_token_text(token_text(stamp_text(stamp@), high, low)),
    {
        let mut text = stamp.to_string();
        proof {
            if stamp@.year < 0 {
                lemma_early_stamp_is_no_token_text(stamp@, high, low);
            }
        }
        if text.as_str().get_char(0) == '-' {
            return Err(Error::InvalidToken);
        }
        proof {
            reveal_strlit("_");
        }
        text.append("_");
        push_hex16(&mut text, high);
        push_hex16(&mut text, low);
        proof {
            lemma_stamp_is_token_text(stamp@);
            lemma_hex16_is_token_text(high);
            lemma_hex16_is_token_text(low);
        }
        Ok(Token { text })
    }

    /// A new token: the stamp of `now`, and 128 bits drawn from a generator
    /// fit for cryptography. No check is made that the token is not in use:
    /// two draws of 128 bits do not meet.
    pub fn new(now: Timestamp) -> (r: Result<Token, Error>)
        ensures
            now@.year >= 0 ==> r is Ok && exists|high: u64, low: u64|
                r->Ok_0@ == #[trigger] token_text(stamp_text(now@), high, low),
            now@.year < 0 ==> r == Err::<Token, Error>(Error::InvalidToken),
    {
        let high = random_bits();
        let low = random_bits();
        Token::from_parts(&now.into_filename(), high, low)
    }

    /// The text of the token.
    pub fn as_str(&self) -> (r: &str)
        ensures
            r@ == self@,
            is_token_text(r@),
    {
        proof {
            use_type_invariant(self);
        }
        self.text.as_str()
    }
}

} // verus!
