//! Text of numbers and truth values, as reports spell them.

use vstd::prelude::*;
use vstd::string::*;

verus! {

/// The character of a decimal digit.
pub open spec fn digit_char(d: nat) -> char {
    ((48 + d) as u8) as char
}

/// The decimal numeral of a natural number, without leading zeros.
pub open spec fn decimal(n: nat) -> Seq<char>
    decreases n,
{
    if n < 10 {
        seq![digit_char(n)]
    } else {
        decimal(n / 10).push(digit_char(n % 10))
    }
}

/// The decimal numeral of an integer, with a minus sign where it is negative.
pub open spec fn signed_decimal(n: int) -> Seq<char> {
    if n < 0 {
        seq!['-'] + decimal((-n) as nat)
    } else {
        decimal(n as nat)
    }
}

/// The word for a truth value.
pub open spec fn truth(b: bool) -> Seq<char> {
    if b {
        "true"@
    } else {
        "false"@
    }
}

/// The text of one decimal digit.
pub fn digit_text(d: u8) -> (text: &'static str)
    requires
        d < 10,
    ensures
        text@ == seq![digit_char(d as nat)],
{
    proof {
        reveal_strlit("0");
        reveal_strlit("1");
        reveal_strlit("2");
        reveal_strlit("3");
        reveal_strlit("4");
        reveal_strlit("5");
        reveal_strlit("6");
        reveal_strlit("7");
        reveal_strlit("8");
        reveal_strlit("9");
    }
    let text = if d == 0 {
        "0"
    } else if d == 1 {
        "1"
    } else if d == 2 {
        "2"
    } else if d == 3 {
        "3"
    } else if d == 4 {
        "4"
    } else if d == 5 {
        "5"
    } else if d == 6 {
        "6"
    } else if d == 7 {
        "7"
    } else if d == 8 {
        "8"
    } else {
        "9"
    };
    assert(text@ =~= seq![digit_char(d as nat)]);
    text
}

/// The decimal numeral of `n`.
pub fn decimal_text(n: u8) -> (text: String)
    ensures
        text@ == decimal(n as nat),
{
    if n < 10 {
        digit_text(n).to_owned()
    } else if n < 100 {
        let mut text = digit_text(n / 10).to_owned();
        text.append(digit_text(n % 10));
        proof {
            assert(decimal(n as nat) =~= decimal((n / 10) as nat).push(digit_char((n % 10) as nat)));
            assert(text@ =~= decimal(n as nat));
        }
        text
    } else {
        let mut text = digit_text(n / 100).to_owned();
        text.append(digit_text((n / 10) % 10));
        text.append(digit_text(n % 10));
        proof {
            let tens = (n / 10) as nat;
            assert(decimal(tens) =~= decimal(tens / 10).push(digit_char(tens % 10)));
            assert(decimal(n as nat) =~= decimal(tens).push(digit_char((n % 10) as nat)));
            assert(text@ =~= decimal(n as nat));
        }
        text
    }
}

/// The decimal numeral of `n`, with a minus sign where it is negative.
pub fn signed_decimal_text(n: i8) -> (text: String)
    ensures
        text@ == signed_decimal(n as int),
{
    if n >= 0 {
        decimal_text(n as u8)
    } else {
        let magnitude: u8 = if n == i8::MIN {
            128
        } else {
            (-n) as u8
        };
        let mut text = "-".to_owned();
        let digits = decimal_text(magnitude);
        text.append(digits.as_str());
        proof {
            reveal_strlit("-");
            assert(text@ =~= signed_decimal(n as int));
        }
        text
    }
}

/// The word for `b`.
pub fn truth_text(b: bool) -> (text: &'static str)
    ensures
        text@ == truth(b),
{
    if b {
        "true"
    } else {
        "false"
    }
}

/// The text of `text` between double quotes, with the escapes of the
/// standard debug format.
pub uninterp spec fn debug_quoted(text: Seq<char>) -> Seq<char>;

/// The `{:?}` format of a string slice: the text between double quotes,
/// escaped as the standard library does.
#[verifier::external_body]
pub(crate) fn quoted(text: &str) -> (quoted: String)
    ensures
        quoted@ == debug_quoted(text@),
{
    format!("{:?}", text)
}

/// The views of the strings of a list.
pub open spec fn texts(list: Seq<String>) -> Seq<Seq<char>> {
    Seq::new(list.len(), |i: int| list[i]@)
}

/// The entries of a report, each between braces on lines of their own and
/// followed by a comma.
pub open spec fn blocks(entries: Seq<Seq<char>>) -> Seq<char>
    decreases entries.len(),
{
    if entries.len() == 0 {
        Seq::empty()
    } else {
        blocks(entries.drop_last()) + "{\n"@ + entries.last() + "\n},\n"@
    }
}

/// A report: the name, a heading, and the entries between square brackets.
pub open spec fn listing(name: Seq<char>, heading: Seq<char>, entries: Seq<Seq<char>>) -> Seq<
    char,
> {
    "Name: "@ + name + heading + blocks(entries) + "]"@
}

/// The report with `name`, `heading` and `entries`.
pub fn listing_text(name: &str, heading: &str, entries: &Vec<String>) -> (text: String)
    ensures
        text@ == listing(name@, heading@, texts(entries@)),
{
    let mut text = "Name: ".to_owned();
    text.append(name);
    text.append(heading);
    let ghost head = text@;
    let mut i: usize = 0;
    proof {
        assert(texts(entries@).subrange(0, 0) =~= Seq::<Seq<char>>::empty());
        assert(text@ =~= head + blocks(texts(entries@).subrange(0, 0)));
    }
    while i < entries.len()
        invariant
            i <= entries.len(),
            text@ == head + blocks(texts(entries@).subrange(0, i as int)),
        decreases entries.len() - i,
    {
        let ghost before = texts(entries@).subrange(0, i as int);
        let ghost after = texts(entries@).subrange(0, i as int + 1);
        text.append("{\n");
        text.append(entries[i].as_str());
        text.append("\n},\n");
        proof {
            assert(after.drop_last() =~= before);
            assert(after.last() == entries@[i as int]@);
            assert(text@ =~= head + blocks(after));
        }
        i += 1;
    }
    proof {
        assert(texts(entries@).subrange(0, entries@.len() as int) =~= texts(entries@));
    }
    text.append("]");
    proof {
        assert(text@ =~= listing(name@, heading@, texts(entries@)));
    }
    text
}

} // verus!
