//! Texts: decimal numerals, and values the way `{:?}` shows them.

use vstd::prelude::*;
use vstd::string::*;

verus! {

/// The decimal digit `d`.
pub open spec fn digit(d: nat) -> char {
    (48 + d) as char
}

/// The decimal numeral of `n`, without leading zeros.
pub open spec fn decimal(n: nat) -> Seq<char>
    decreases n,
{
    if n < 10 {
        seq![digit(n)]
    } else {
        decimal(n / 10).push(digit(n % 10))
    }
}

/// The decimal numeral of `n`, with a minus sign where `n` is negative.
pub open spec fn signed_decimal(n: int) -> Seq<char> {
    if n < 0 {
        seq!['-'] + decimal((-n) as nat)
    } else {
        decimal(n as nat)
    }
}

/// Appends the decimal digit `d`.
fn append_digit(text: &mut String, d: u64)
    requires
        d < 10,
    ensures
        final(text)@ == old(text)@.push(digit(d as nat)),
{
    proof {
        reveal_strlit("0");
        reveal_strlit("1");
        reveal_strlit("2");
        reveal_strlit("3");
        reveal_strlit("4");
        reveal_strlit("5");
        reveal_strlit("6");
        reveal_strlit("7");
        reveal_strlit("8");
        reveal_strlit("9");
    }
    let c: &str = match d {
        0 => "0",
        1 => "1",
        2 => "2",
        3 => "3",
        4 => "4",
        5 => "5",
        6 => "6",
        7 => "7",
        8 => "8",
        _ => "9",
    };
    text.append(c);
    assert(text@ =~= old(text)@.push(digit(d as nat)));
}

/// The decimal numeral of `n`.
pub(crate) fn decimal_text(n: u64) -> (r: String)
    ensures
        r@ == decimal(n as nat),
    decreases n,
{
    if n < 10 {
        let mut text = String::new();
        append_digit(&mut text, n);
        assert(text@ =~= decimal(n as nat));
        text
    } else {
        let mut text = decimal_text(n / 10);
        append_digit(&mut text, n % 10);
        text
    }
}

/// The decimal numeral of `n`, which may be negative.
pub(crate) fn signed_decimal_text(n: i16) -> (r: String)
    ensures
        r@ == signed_decimal(n as int),
{
    if n < 0 {
        let mut text = "-".to_string();
        proof {
            reveal_strlit("-");
        }
        let magnitude: u64 = (-(n as i64)) as u64;
        text.append(decimal_text(magnitude).as_str());
        assert(text@ =~= signed_decimal(n as int));
        text
    } else {
        decimal_text(n as u64)
    }
}

/// A numeral has at least one digit.
pub proof fn decimal_nonempty(n: nat)
    ensures
        decimal(n).len() > 0,
{
}

/// Every character of a numeral is a digit.
pub proof fn decimal_is_digits(n: nat)
    ensures
        forall|i: int| 0 <= i < decimal(n).len() ==> '0' <= #[trigger] decimal(n)[i] <= '9',
    decreases n,
{
    if n >= 10 {
        decimal_is_digits(n / 10);
        let front = decimal(n / 10);
        assert forall|i: int| 0 <= i < decimal(n).len() implies '0' <= #[trigger] decimal(n)[i]
            <= '9' by {
            if i < front.len() {
                assert(decimal(n)[i] == front[i]);
            } else {
                assert(decimal(n)[i] == digit(n % 10));
            }
        }
    }
}

/// Two numbers with the same numeral are the same number.
pub proof fn decimal_injective(a: nat, b: nat)
    ensures
        decimal(a) == decimal(b) ==> a == b,
    decreases a,
{
    if decimal(a) == decimal(b) {
        assert(decimal(a).last() == digit(a % 10)) by {
            if a < 10 {
                assert(a % 10 == a);
            }
        }
        assert(decimal(b).last() == digit(b % 10)) by {
            if b < 10 {
                assert(b % 10 == b);
            }
        }
        assert(a % 10 == b % 10);
        if a >= 10 && b >= 10 {
            assert(decimal(a).drop_last() =~= decimal(a / 10));
            assert(decimal(b).drop_last() =~= decimal(b / 10));
            decimal_injective(a / 10, b / 10);
        } else if a >= 10 {
            decimal_nonempty(a / 10);
            assert(decimal(b).len() == 1);
        } else if b >= 10 {
            decimal_nonempty(b / 10);
            assert(decimal(a).len() == 1);
        }
    }
}

/// `s` between quotes.
pub open spec fn quoted(s: Seq<char>) -> Seq<char> {
    seq!['"'] + s + seq!['"']
}

/// Whether `s` is made up of printable ASCII characters alone, none of them a quote or a
/// backslash.
pub open spec fn printable(s: Seq<char>) -> bool {
    forall|i: int| 0 <= i < s.len() ==> ' ' <= #[trigger] s[i] <= '~' && s[i] != '"' && s[i] != '\\'
}

/// The text that `{:?}` shows for a string, where some of it may have to be escaped.
pub uninterp spec fn str_debug(s: Seq<char>) -> Seq<char>;

/// The text that `{:?}` shows for a string: one that is printable as it stands, between quotes.
pub open spec fn shown_str(s: Seq<char>) -> Seq<char> {
    if printable(s) {
        quoted(s)
    } else {
        str_debug(s)
    }
}

/// The `Debug` text of a `str` is the string between quotes, with escapes. Printable ASCII
/// characters but the quote and the backslash stand for themselves; with others in it the text is
/// `str_debug`, and which of those are escaped, and how, is left unsaid.
#[verifier::external_body]
pub(crate) fn debug_str(s: &str) -> (r: String)
    ensures
        r@ == (if printable(s@) {
            quoted(s@)
        } else {
            str_debug(s@)
        }),
{
    format!("{:?}", s)
}

/// The characters of a string, if there is one.
pub open spec fn optional_text(s: Option<String>) -> Option<Seq<char>> {
    match s {
        Some(s) => Some(s@),
        None => None,
    }
}

/// The characters of each of `list`.
pub open spec fn texts(list: Seq<String>) -> Seq<Seq<char>> {
    list.map_values(|s: String| s@)
}

/// An optional value as `{:?}` shows it, over the value as `{:?}` shows it.
pub open spec fn shown_optional(shown: Option<Seq<char>>) -> Seq<char> {
    match shown {
        Some(shown) => "Some("@ + shown + ")"@,
        None => "None"@,
    }
}

/// The texts with a comma and a blank between each two.
pub open spec fn listed(shown: Seq<Seq<char>>) -> Seq<char>
    decreases shown.len(),
{
    if shown.len() == 0 {
        Seq::empty()
    } else if shown.len() == 1 {
        shown[0]
    } else {
        listed(shown.drop_last()) + ", "@ + shown.last()
    }
}

/// A list as `{:?}` shows it, over its items as `{:?}` shows them.
pub open spec fn shown_list(shown: Seq<Seq<char>>) -> Seq<char> {
    "["@ + listed(shown) + "]"@
}

/// The text that `{:?}` shows for an optional string.
pub open spec fn optional_debug(s: Option<Seq<char>>) -> Seq<char> {
    shown_optional(
        match s {
            Some(s) => Some(shown_str(s)),
            None => None,
        },
    )
}

/// The text that `{:?}` shows for a list of strings.
pub open spec fn list_debug(list: Seq<Seq<char>>) -> Seq<char> {
    shown_list(list.map_values(|s: Seq<char>| shown_str(s)))
}

/// An optional value as `{:?}` shows it, from the value as `{:?}` shows it.
pub fn show_optional(shown: Option<String>) -> (r: String)
    ensures
        r@ == shown_optional(optional_text(shown)),
{
    match shown {
        Some(shown) => {
            let mut text = "Some(".to_string();
            text.append(shown.as_str());
            text.append(")");
            text
        },
        None => "None".to_string(),
    }
}

/// A list as `{:?}` shows it, from its items as `{:?}` shows them.
pub fn show_list(shown: &Vec<String>) -> (r: String)
    ensures
        r@ == shown_list(texts(shown@)),
{
    let mut items = String::new();
    let mut i: usize = 0;
    assert(texts(shown@).take(0) =~= Seq::empty());
    while i < shown.len()
        invariant
            i <= shown.len(),
            items@ == listed(texts(shown@).take(i as int)),
        decreases shown.len() - i,
    {
        let ghost before = texts(shown@).take(i as int);
        let ghost after = texts(shown@).take(i + 1);
        assert(after.drop_last() =~= before);
        assert(after.last() == shown@[i as int]@);
        if i > 0 {
            items.append(", ");
        }
        items.append(shown[i].as_str());
        assert(items@ =~= listed(after));
        i += 1;
    }
    assert(texts(shown@).take(i as int) =~= texts(shown@));
    let mut text = "[".to_string();
    text.append(items.as_str());
    text.append("]");
    text
}

/// An optional string as `{:?}` shows it.
pub(crate) fn debug_optional(s: &Option<String>) -> (r: String)
    ensures
        r@ == optional_debug(optional_text(*s)),
{
    match s {
        Some(s) => show_optional(Some(debug_str(s.as_str()))),
        None => show_optional(None),
    }
}

/// A list of strings as `{:?}` shows it.
pub(crate) fn debug_list(list: &Vec<String>) -> (r: String)
    ensures
        r@ == list_debug(texts(list@)),
{
    let mut shown: Vec<String> = Vec::new();
    let mut i: usize = 0;
    while i < list.len()
        invariant
            i <= list.len(),
            shown@.len() == i,
            forall|k: int| 0 <= k < i ==> (#[trigger] shown@[k])@ == shown_str(list@[k]@),
        decreases list.len() - i,
    {
        shown.push(debug_str(list[i].as_str()));
        i += 1;
    }
    assert(texts(shown@) =~= texts(list@).map_values(|s: Seq<char>| shown_str(s)));
    show_list(&shown)
}

} // verus!
