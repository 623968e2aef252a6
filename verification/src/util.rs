//! Small helpers for text.

use vstd::prelude::*;

verus! {

/// A piece of text that is shown in one colour.
#[derive(Debug, PartialEq, Eq)]
pub struct TextSpan {
    pub value: String,
    /// Whether the piece stands out.
    pub highlight: bool,
}

/// The pieces that the stars cut a text into: a text without stars is one
/// piece, and each star ends a piece and starts the next, which may be
/// empty.
pub open spec fn pieces(text: Seq<char>) -> Seq<Seq<char>>
    decreases text.len(),
{
    if text.len() == 0 {
        seq![Seq::<char>::empty()]
    } else {
        let before = pieces(text.drop_last());
        if text.last() == '*' {
            before.push(Seq::<char>::empty())
        } else {
            before.update(before.len() - 1, before.last().push(text.last()))
        }
    }
}

/// Cuts a text at its stars and marks every other piece as standing out:
/// what is written between two stars, as in `plain *loud* plain`, is
/// highlighted, and the stars themselves are dropped.
pub fn highlight_text(text: &str) -> (spans: Vec<TextSpan>)
    ensures
        spans.len() == pieces(text@).len(),
        forall|k: int|
            0 <= k < spans.len() ==> (#[trigger] spans[k]).value@ == pieces(text@)[k] && spans[k].highlight
                == (k % 2 == 1),
{
    let length: usize = text.unicode_len();
    let mut spans: Vec<TextSpan> = Vec::new();
    let mut highlight: bool = false;
    let mut start: usize = 0;
    let mut index: usize = 0;
    assert(text@.take(0) =~= Seq::<char>::empty());
    assert(pieces(text@.take(0)) =~= seq![text@.subrange(0, 0)]);
    while index < length
        invariant
            length == text@.len(),
            start <= index <= length,
            highlight == (spans.len() % 2 == 1),
            pieces(text@.take(index as int)).len() == spans.len() + 1,
            pieces(text@.take(index as int)).last() == text@.subrange(start as int, index as int),
            forall|k: int|
                0 <= k < spans.len() ==> (#[trigger] spans[k]).value@ == pieces(
                    text@.take(index as int),
                )[k] && spans[k].highlight == (k % 2 == 1),
        decreases length - index,
    {
        let c: char = text.get_char(index);
        proof {
            let taken = text@.take(index + 1);
            assert(taken.drop_last() =~= text@.take(index as int));
            assert(taken.last() == c);
        }
        if c == '*' {
            let piece: String = text.substring_char(start, index).to_owned();
            spans.push(TextSpan { value: piece, highlight });
            highlight = !highlight;
            start = index + 1;
            assert(text@.subrange(start as int, start as int) =~= Seq::<char>::empty());
        } else {
            assert(text@.subrange(start as int, index as int).push(c) =~= text@.subrange(
                start as int,
                index + 1,
            ));
        }
        index = index + 1;
    }
    assert(text@.take(index as int) =~= text@);
    let piece: String = text.substring_char(start, length).to_owned();
    spans.push(TextSpan { value: piece, highlight });
    spans
}

/// The character of a digit.
pub open spec fn digit_char(digit: nat) -> char {
    if digit == 0 {
        '0'
    } else if digit == 1 {
        '1'
    } else if digit == 2 {
        '2'
    } else if digit == 3 {
        '3'
    } else if digit == 4 {
        '4'
    } else if digit == 5 {
        '5'
    } else if digit == 6 {
        '6'
    } else if digit == 7 {
        '7'
    } else if digit == 8 {
        '8'
    } else {
        '9'
    }
}

/// A number written in decimal digits, without leading zeros.
pub open spec fn decimal(number: nat) -> Seq<char>
    decreases number,
{
    if number < 10 {
        seq![digit_char(number)]
    } else {
        decimal(number / 10).push(digit_char(number % 10))
    }
}

/// The text of a digit.
fn digit_str(digit: u128) -> (text: &'static str)
    requires
        digit < 10,
    ensures
        text@ == seq![digit_char(digit as nat)],
{
    proof {
        reveal_strlit("0");
        reveal_strlit("1");
        reveal_strlit("2");
        reveal_strlit("3");
        reveal_strlit("4");
        reveal_strlit("5");
        reveal_strlit("6");
        reveal_strlit("7");
        reveal_strlit("8");
        reveal_strlit("9");
    }
    let text: &'static str = if digit == 0 {
        "0"
    } else if digit == 1 {
        "1"
    } else if digit == 2 {
        "2"
    } else if digit == 3 {
        "3"
    } else if digit == 4 {
        "4"
    } else if digit == 5 {
        "5"
    } else if digit == 6 {
        "6"
    } else if digit == 7 {
        "7"
    } else if digit == 8 {
        "8"
    } else {
        "9"
    };
    assert(text@ =~= seq![digit_char(digit as nat)]);
    text
}

/// Writes a number in decimal digits.
pub fn to_decimal(number: u128) -> (text: String)
    ensures
        text@ == decimal(number as nat),
    decreases number,
{
    if number < 10 {
        digit_str(number).to_owned()
    } else {
        let mut text: String = to_decimal(number / 10);
        text.append(digit_str(number % 10));
        assert(text@ =~= decimal(number as nat));
        text
    }
}

} // verus!
