//! The cell renderer: cutting a cell's text down to a budget of characters,
//! and the texts of the markers that stand for hidden data.

use vstd::prelude::*;
use vstd::string::*;

verus! {

/// The text of the elision glyph: a single character.
pub open spec fn ellipsis() -> Seq<char> {
    seq!['…']
}

/// The budget that is applied: a budget of zero has no room for the glyph and
/// is read as a budget of one.
pub open spec fn effective_width(max_width: nat) -> nat {
    if max_width == 0 {
        1
    } else {
        max_width
    }
}

/// A text cut down to `max_width` characters, the glyph included: a text
/// within the budget is kept as it is, a longer one keeps as many leading
/// characters as leave room for the glyph that ends it.
pub open spec fn truncated(text: Seq<char>, max_width: Option<usize>) -> Seq<char> {
    match max_width {
        None => text,
        Some(w) => if text.len() <= w {
            text
        } else {
            text.take(effective_width(w as nat) - 1) + ellipsis()
        },
    }
}

/// The decimal digit `d`.
pub open spec fn digit_char(d: nat) -> char {
    if d == 0 {
        '0'
    } else if d == 1 {
        '1'
    } else if d == 2 {
        '2'
    } else if d == 3 {
        '3'
    } else if d == 4 {
        '4'
    } else if d == 5 {
        '5'
    } else if d == 6 {
        '6'
    } else if d == 7 {
        '7'
    } else if d == 8 {
        '8'
    } else {
        '9'
    }
}

/// The decimal numeral of `n`, without leading zeros.
pub open spec fn decimal(n: nat) -> Seq<char>
    decreases n,
{
    if n < 10 {
        seq![digit_char(n)]
    } else {
        decimal(n / 10).push(digit_char(n % 10))
    }
}

/// The text of the marker cell of a header: the glyph, an empty line, and
/// the number of hidden columns in brackets.
pub open spec fn hidden_marker_text(hidden: nat) -> Seq<char> {
    "…\n\n("@ + decimal(hidden) + " hidden)"@
}

/// The elision glyph as a string.
pub fn dots() -> (s: String)
    ensures
        s@ == ellipsis(),
{
    proof {
        reveal_strlit("…");
    }
    String::from_str("…")
}

/// Cuts `text` down to `max_width` characters.
///
/// Without a budget, and within it, the text comes back unchanged. A longer
/// text comes back with exactly `max_width` characters, the last of them the
/// elision glyph and the others the leading characters of `text`. Characters
/// are counted, not bytes. A budget of zero is applied as a budget of one.
pub fn truncate(text: &str, max_width: Option<usize>) -> (out: String)
    ensures
        out@ == truncated(text@, max_width),
        max_width is None ==> out@ == text@,
        max_width is Some && text@.len() <= max_width->0 ==> out@ == text@,
        max_width is Some && text@.len() > max_width->0 ==> {
            &&& out@.len() == effective_width(max_width->0 as nat)
            &&& out@.last() == '…'
            &&& out@.drop_last() == text@.take(effective_width(max_width->0 as nat) - 1)
        },
{
    match max_width {
        None => String::from_str(text),
        Some(w) => {
            let len = text.unicode_len();
            if len <= w {
                String::from_str(text)
            } else {
                let keep: usize = if w == 0 {
                    0
                } else {
                    w - 1
                };
                let head = text.substring_char(0, keep);
                let mut out = String::from_str(head);
                let glyph = dots();
                out.append(glyph.as_str());
                out
            }
        },
    }
}

fn digit_str(d: usize) -> (s: &'static str)
    requires
        d < 10,
    ensures
        s@ == seq![digit_char(d as nat)],
{
    proof {
        reveal_strlit("0");
        reveal_strlit("1");
        reveal_strlit("2");
        reveal_strlit("3");
        reveal_strlit("4");
        reveal_strlit("5");
        reveal_strlit("6");
        reveal_strlit("7");
        reveal_strlit("8");
        reveal_strlit("9");
    }
    if d == 0 {
        "0"
    } else if d == 1 {
        "1"
    } else if d == 2 {
        "2"
    } else if d == 3 {
        "3"
    } else if d == 4 {
        "4"
    } else if d == 5 {
        "5"
    } else if d == 6 {
        "6"
    } else if d == 7 {
        "7"
    } else if d == 8 {
        "8"
    } else {
        "9"
    }
}

/// Writes `n` as a decimal numeral.
pub fn decimal_string(n: usize) -> (s: String)
    ensures
        s@ == decimal(n as nat),
    decreases n,
{
    if n < 10 {
        String::from_str(digit_str(n))
    } else {
        let mut s = decimal_string(n / 10);
        s.append(digit_str(n % 10));
        s
    }
}

/// Writes the text of the marker cell for `hidden` hidden columns.
pub fn hidden_marker(hidden: usize) -> (s: String)
    ensures
        s@ == hidden_marker_text(hidden as nat),
{
    let mut s = String::from_str("…\n\n(");
    let count = decimal_string(hidden);
    s.append(count.as_str());
    s.append(" hidden)");
    s
}

/// Cutting leaves a text within the budget as it is, and cuts a longer one to
/// exactly the budget, its last character the glyph. (A budget of zero has no
/// room for the glyph and is left out.)
pub proof fn lemma_truncated_round_trip(text: Seq<char>, max_width: usize)
    ensures
        text.len() <= max_width ==> truncated(text, Some(max_width)) == text,
        text.len() > max_width >= 1 ==> {
            &&& truncated(text, Some(max_width)).len() == max_width
            &&& truncated(text, Some(max_width)).last() == '…'
            &&& truncated(text, Some(max_width)).subrange(max_width - 1, max_width as int)
                == ellipsis()
        },
        truncated(text, None) == text,
{
}

} // verus!
