//! Messages that name an index.

use vstd::prelude::*;
use vstd::string::StringExecFns;

verus! {

/// The character of a decimal digit.
pub open spec fn digit(d: nat) -> char {
    ('0' as nat + d) as char
}

/// The decimal notation of `n`, without leading zeros.
pub open spec fn decimal(n: nat) -> Seq<char>
    decreases n,
{
    if n < 10 {
        seq![digit(n)]
    } else {
        decimal(n / 10).push(digit(n % 10))
    }
}

/// `prefix`, the decimal notation of `index`, and `suffix`, in this order.
pub open spec fn indexed(prefix: Seq<char>, index: u32, suffix: Seq<char>) -> Seq<char> {
    prefix + decimal(index as nat) + suffix
}

/// The number that a sequence of decimal digits denotes.
pub open spec fn number(digits: Seq<char>) -> int
    decreases digits.len(),
{
    if digits.len() == 0 {
        0
    } else {
        10 * number(digits.drop_last()) + (digits.last() as int - '0' as int)
    }
}

/// The decimal notation of a number is made of digits, denotes the number, and has no
/// leading zero but for zero itself.
pub proof fn law_decimal(n: nat)
    ensures
        number(decimal(n)) == n,
        decimal(n).len() > 0,
        forall|i: int| 0 <= i < decimal(n).len() ==> '0' <= #[trigger] decimal(n)[i] <= '9',
        n > 0 ==> decimal(n)[0] != '0',
        n == 0 ==> decimal(n).len() == 1,
    decreases n,
{
    reveal_with_fuel(number, 2);
    if n >= 10 {
        law_decimal(n / 10);
        assert(decimal(n).drop_last() =~= decimal(n / 10));
    } else {
        assert(decimal(n).drop_last() =~= Seq::<char>::empty());
    }
}

/// A message that names an index holds nothing but the prefix, the index in decimal
/// notation, and the suffix.
pub proof fn law_indexed(prefix: Seq<char>, index: u32, suffix: Seq<char>)
    ensures
        ({
            let text = indexed(prefix, index, suffix);
            let end = text.len() - suffix.len();
            &&& prefix.len() < end
            &&& text.take(prefix.len() as int) == prefix
            &&& text.skip(end) == suffix
            &&& number(text.subrange(prefix.len() as int, end)) == index
            &&& forall|i: int| prefix.len() <= i < end ==> '0' <= #[trigger] text[i] <= '9'
            &&& index > 0 ==> text[prefix.len() as int] != '0'
            &&& index == 0 ==> end == prefix.len() + 1
        }),
{
    let text = indexed(prefix, index, suffix);
    let end = text.len() - suffix.len();
    law_decimal(index as nat);
    assert(text.take(prefix.len() as int) =~= prefix);
    assert(text.skip(end) =~= suffix);
    assert(text.subrange(prefix.len() as int, end) =~= decimal(index as nat));
    assert forall|i: int| prefix.len() <= i < end implies '0' <= #[trigger] text[i] <= '9' by {
        assert(text[i] == decimal(index as nat)[i - prefix.len()]);
    }
    assert(text[prefix.len() as int] == decimal(index as nat)[0]);
}

/// The text of a decimal digit.
fn digit_text(d: u32) -> (s: &'static str)
    requires
        d < 10,
    ensures
        s@ == seq![digit(d as nat)],
{
    proof {
        reveal_strlit("0");
        reveal_strlit("1");
        reveal_strlit("2");
        reveal_strlit("3");
        reveal_strlit("4");
        reveal_strlit("5");
        reveal_strlit("6");
        reveal_strlit("7");
        reveal_strlit("8");
        reveal_strlit("9");
    }
    match d {
        0 => "0",
        1 => "1",
        2 => "2",
        3 => "3",
        4 => "4",
        5 => "5",
        6 => "6",
        7 => "7",
        8 => "8",
        _ => "9",
    }
}

/// Appends the decimal notation of `n` to `text`.
fn append_decimal(text: &mut String, n: u32)
    ensures
        final(text)@ == old(text)@ + decimal(n as nat),
    decreases n,
{
    if n >= 10 {
        append_decimal(text, n / 10);
    }
    text.append(digit_text(n % 10));
    assert(text@ =~= old(text)@ + decimal(n as nat));
}

/// The message that names `index` between `prefix` and `suffix`.
pub fn format_index(prefix: &str, index: u32, suffix: &str) -> (text: String)
    ensures
        text@ == indexed(prefix@, index, suffix@),
{
    let mut text = prefix.to_owned();
    append_decimal(&mut text, index);
    text.append(suffix);
    text
}

} // verus!
