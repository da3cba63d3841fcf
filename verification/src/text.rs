//! Text put together from pieces.
//!
//! Names, symbols and messages are kept as lists of pieces until they are
//! shown or looked up.

use crate::list::{append, cons, extend, prepend, single, List};
use vstd::prelude::*;
use vstd::string::*;
use vstd::utf8::*;

verus! {

broadcast use vstd::utf8::encode_utf8_decode_utf8;

/// A piece of text: characters or a number in decimal notation.
pub enum Piece<'a> {
    Words(&'a str),
    Number(u128),
}

impl<'a> Clone for Piece<'a> {
    fn clone(&self) -> (copy: Self)
        ensures
            copy == *self,
    {
        *self
    }
}

impl<'a> Copy for Piece<'a> {

}

/// Text as a list of pieces.
pub type Text<'a> = List<Piece<'a>>;

/// The decimal digit of a number below ten.
pub open spec fn digit(value: nat) -> char {
    (0x30 + value) as char
}

/// The decimal notation of a number.
pub open spec fn decimal(value: nat) -> Seq<char>
    decreases value,
{
    if value < 10 {
        seq![digit(value)]
    } else {
        decimal(value / 10).push(digit(value % 10))
    }
}

/// The characters of one piece.
pub open spec fn piece_characters(piece: Piece) -> Seq<char> {
    match piece {
        Piece::Words(words) => words@,
        Piece::Number(value) => decimal(value as nat),
    }
}

/// The characters of a text.
pub open spec fn characters(text: Text) -> Seq<char>
    decreases text,
{
    match text {
        List::Nil => Seq::empty(),
        List::Cons(node) => piece_characters(node.head) + characters(node.tail),
    }
}

/// Characters of appended texts follow one another.
pub proof fn appended_characters(first: Text, second: Text)
    ensures
        characters(append(first, second)) == characters(first) + characters(second),
    decreases first,
{
    match first {
        List::Nil => {
            assert(characters(first) + characters(second) =~= characters(second));
        },
        List::Cons(_) => {
            appended_characters(first.rest(), second);
            assert(characters(append(first, second)) =~= characters(first) + characters(second));
        },
    }
}

/// Whether two strings hold the same characters.
pub fn same(left: &str, right: &str) -> (equal: bool)
    ensures
        equal == (left@ == right@),
{
    let first = left.as_bytes();
    let second = right.as_bytes();
    proof {
        encode_utf8_decode_utf8(left@);
        encode_utf8_decode_utf8(right@);
    }
    if first.len() != second.len() {
        return false;
    }
    let mut index: usize = 0;
    while index < first.len()
        invariant
            index <= first@.len(),
            first@.len() == second@.len(),
            first@ == encode_utf8(left@),
            second@ == encode_utf8(right@),
            forall|i: int| 0 <= i < index ==> first@[i] == second@[i],
        decreases first@.len() - index,
    {
        if first[index] != second[index] {
            return false;
        }
        index = index + 1;
    }
    assert(first@ =~= second@);
    true
}

/// Whether bytes come before others in alphabetical order, from a position on.
pub open spec fn bytes_precede(left: Seq<u8>, right: Seq<u8>, at: nat) -> bool
    decreases right.len() - at,
{
    if at >= right.len() {
        false
    } else if at >= left.len() {
        true
    } else if left[at as int] != right[at as int] {
        left[at as int] < right[at as int]
    } else {
        bytes_precede(left, right, at + 1)
    }
}

/// Whether a string comes before another in alphabetical order.
pub open spec fn spec_precedes(left: &str, right: &str) -> bool {
    bytes_precede(encode_utf8(left@), encode_utf8(right@), 0)
}

/// Whether a string comes before another in alphabetical order.
#[verifier::when_used_as_spec(spec_precedes)]
pub fn precedes(left: &str, right: &str) -> (before: bool)
    ensures
        before == spec_precedes(left, right),
{
    let first = left.as_bytes();
    let second = right.as_bytes();
    let mut index: usize = 0;
    while index < second.len()
        invariant
            index <= first@.len(),
            index <= second@.len(),
            first@ == encode_utf8(left@),
            second@ == encode_utf8(right@),
            spec_precedes(left, right) == bytes_precede(first@, second@, index as nat),
        decreases second@.len() - index,
    {
        if index >= first.len() {
            return true;
        }
        if first[index] != second[index] {
            return first[index] < second[index];
        }
        index = index + 1;
    }
    false
}

/// Whether a string is among the given ones.
pub open spec fn listed(names: List<&str>, name: Seq<char>) -> bool
    decreases names,
{
    match names {
        List::Nil => false,
        List::Cons(node) => node.head@ == name || listed(node.tail, name),
    }
}

/// Whether a string is among the given ones.
pub fn is_listed(names: &List<&str>, name: &str) -> (found: bool)
    ensures
        found == listed(*names, name@),
{
    let mut ahead: &List<&str> = names;
    loop
        invariant
            listed(*names, name@) == listed(*ahead, name@),
        decreases *ahead,
    {
        match ahead {
            List::Nil => {
                return false;
            },
            List::Cons(node) => {
                if same(node.head, name) {
                    return true;
                }
                ahead = &node.tail;
            },
        }
    }
}

/// Whether any character of the text is `\0`.
pub open spec fn holds_nul(text: Text) -> bool {
    characters(text).contains('\0')
}

fn push_number(shown: &mut String, value: u128)
    ensures
        final(shown)@ == old(shown)@ + decimal(value as nat),
    decreases value,
{
    if value >= 10 {
        push_number(shown, value / 10);
    }
    let last: u128 = value % 10;
    let text = if last == 0 {
        "0"
    } else if last == 1 {
        "1"
    } else if last == 2 {
        "2"
    } else if last == 3 {
        "3"
    } else if last == 4 {
        "4"
    } else if last == 5 {
        "5"
    } else if last == 6 {
        "6"
    } else if last == 7 {
        "7"
    } else if last == 8 {
        "8"
    } else {
        "9"
    };
    proof {
        reveal_strlit("0");
        reveal_strlit("1");
        reveal_strlit("2");
        reveal_strlit("3");
        reveal_strlit("4");
        reveal_strlit("5");
        reveal_strlit("6");
        reveal_strlit("7");
        reveal_strlit("8");
        reveal_strlit("9");
        assert(text@ =~= seq![digit((value % 10) as nat)]);
    }
    shown.append(text);
    assert(shown@ =~= old(shown)@ + decimal(value as nat));
}

fn push_text(shown: &mut String, text: &Text)
    ensures
        final(shown)@ == old(shown)@ + characters(*text),
{
    let mut ahead: &Text = text;
    loop
        invariant
            old(shown)@ + characters(*text) == shown@ + characters(*ahead),
        decreases *ahead,
    {
        match ahead {
            List::Nil => {
                assert(shown@ =~= shown@ + characters(*ahead));
                return ;
            },
            List::Cons(node) => {
                let ghost before = shown@;
                match node.head {
                    Piece::Words(words) => shown.append(words),
                    Piece::Number(value) => push_number(shown, value),
                }
                assert(before + characters(*ahead) =~= shown@ + characters(node.tail));
                ahead = &node.tail;
            },
        }
    }
}

/// The text as a string.
pub fn show(text: &Text) -> (shown: String)
    ensures
        shown@ == characters(*text),
{
    let mut shown = String::new();
    push_text(&mut shown, text);
    assert(shown@ =~= characters(*text));
    shown
}

/// Whether a text holds exactly the characters of `name`.
pub fn reads(text: &Text, name: &str) -> (equal: bool)
    ensures
        equal == (characters(*text) == name@),
{
    let shown = show(text);
    same(shown.as_str(), name)
}

/// Whether two texts hold the same characters.
pub fn reads_alike(left: &Text, right: &Text) -> (equal: bool)
    ensures
        equal == (characters(*left) == characters(*right)),
{
    let left = show(left);
    let right = show(right);
    same(left.as_str(), right.as_str())
}

/// Whether any character of the text is `\0`.
pub fn has_nul(text: &Text) -> (found: bool)
    ensures
        found == holds_nul(*text),
{
    let shown = show(text);
    let shown = shown.as_str();
    let length: usize = shown.unicode_len();
    let mut index: usize = 0;
    while index < length
        invariant
            index <= length,
            length == shown@.len(),
            shown@ == characters(*text),
            forall|i: int| 0 <= i < index ==> shown@[i] != '\0',
        decreases length - index,
    {
        if shown.get_char(index) == '\0' {
            assert(characters(*text)[index as int] == '\0');
            return true;
        }
        index = index + 1;
    }
    false
}

/// The text of both in a row.
pub fn joined<'a>(first: &Text<'a>, second: Text<'a>) -> (text: Text<'a>)
    ensures
        text == append(*first, second),
{
    let mut done: Vec<Piece<'a>> = Vec::new();
    extend(&mut done, first);
    prepend(done, second)
}

/// Text of the given words alone.
pub open spec fn spec_words<'a>(only: &'a str) -> Text<'a> {
    single(Piece::Words(only))
}

/// Text of the given words alone.
#[verifier::when_used_as_spec(spec_words)]
pub fn words<'a>(only: &'a str) -> (text: Text<'a>)
    ensures
        text == spec_words(only),
{
    single(Piece::Words(only))
}

/// A number as text.
pub open spec fn spec_number<'a>(value: u128) -> Text<'a> {
    single(Piece::Number(value))
}

/// A number as text.
#[verifier::when_used_as_spec(spec_number)]
pub fn number<'a>(value: u128) -> (text: Text<'a>)
    ensures
        text == spec_number(value),
{
    single(Piece::Number(value))
}

/// Text of two words in a row.
pub open spec fn spec_words2<'a>(first: &'a str, second: &'a str) -> Text<'a> {
    cons(Piece::Words(first), words(second))
}

/// Text of two words in a row.
#[verifier::when_used_as_spec(spec_words2)]
pub fn words2<'a>(first: &'a str, second: &'a str) -> (text: Text<'a>)
    ensures
        text == spec_words2(first, second),
{
    cons(Piece::Words(first), words(second))
}

/// Text of three words in a row.
pub open spec fn spec_words3<'a>(first: &'a str, second: &'a str, third: &'a str) -> Text<'a> {
    cons(Piece::Words(first), words2(second, third))
}

/// Text of three words in a row.
#[verifier::when_used_as_spec(spec_words3)]
pub fn words3<'a>(first: &'a str, second: &'a str, third: &'a str) -> (text: Text<'a>)
    ensures
        text == spec_words3(first, second, third),
{
    cons(Piece::Words(first), words2(second, third))
}

/// Text of five words in a row.
pub open spec fn spec_words5<'a>(
    first: &'a str,
    second: &'a str,
    third: &'a str,
    fourth: &'a str,
    fifth: &'a str,
) -> Text<'a> {
    cons(Piece::Words(first), cons(Piece::Words(second), words3(third, fourth, fifth)))
}

/// Text of five words in a row.
#[verifier::when_used_as_spec(spec_words5)]
pub fn words5<'a>(
    first: &'a str,
    second: &'a str,
    third: &'a str,
    fourth: &'a str,
    fifth: &'a str,
) -> (text: Text<'a>)
    ensures
        text == spec_words5(first, second, third, fourth, fifth),
{
    cons(Piece::Words(first), cons(Piece::Words(second), words3(third, fourth, fifth)))
}

/// Words, a text, and words again.
pub open spec fn framed<'a>(before: &'a str, text: Text<'a>, after: &'a str) -> Text<'a> {
    cons(Piece::Words(before), append(text, words(after)))
}

/// Words, a text, and words again.
pub fn frame<'a>(before: &'a str, text: &Text<'a>, after: &'a str) -> (framed_text: Text<'a>)
    ensures
        framed_text == framed(before, *text, after),
{
    cons(Piece::Words(before), joined(text, words(after)))
}

} // verus!
