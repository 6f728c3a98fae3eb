//! The texts that the wall writes: the key of a cell, which is its position
//! in decimal digits, and the rendering of a square of colours.

use vstd::prelude::*;
use crate::state::ColorMap;

verus! {

/// The character of a decimal digit.
pub open spec fn digit(d: int) -> char {
    if d == 0 {
        '0'
    } else if d == 1 {
        '1'
    } else if d == 2 {
        '2'
    } else if d == 3 {
        '3'
    } else if d == 4 {
        '4'
    } else if d == 5 {
        '5'
    } else if d == 6 {
        '6'
    } else if d == 7 {
        '7'
    } else if d == 8 {
        '8'
    } else {
        '9'
    }
}

/// The decimal digits of `n`, most significant first, without leading zeros.
pub open spec fn decimal(n: nat) -> Seq<char>
    decreases n,
{
    if n < 10 {
        seq![digit(n as int)]
    } else {
        decimal(n / 10).push(digit((n % 10) as int))
    }
}

/// The key under which the cell at `position` is stored.
pub open spec fn position_key(position: u16) -> Seq<char> {
    decimal(position as nat)
}

/// A decimal rendering is never empty.
pub proof fn decimal_nonempty(n: nat)
    ensures
        decimal(n).len() >= 1,
        n >= 10 ==> decimal(n).len() >= 2,
    decreases n,
{
    if n >= 10 {
        decimal_nonempty(n / 10);
    }
}

/// Different numbers have different decimal renderings.
pub proof fn decimal_injective(a: nat, b: nat)
    requires
        decimal(a) == decimal(b),
    ensures
        a == b,
    decreases a,
{
    decimal_nonempty(a);
    decimal_nonempty(b);
    if a < 10 || b < 10 {
        assert(decimal(a).len() == 1);
        assert(a < 10 && b < 10);
        assert(decimal(a)[0] == digit(a as int));
        assert(decimal(b)[0] == digit(b as int));
    } else {
        let da = decimal(a / 10);
        let db = decimal(b / 10);
        assert(decimal(a).last() == digit((a % 10) as int));
        assert(decimal(b).last() == digit((b % 10) as int));
        assert(decimal(a).drop_last() == da);
        assert(decimal(b).drop_last() == db);
        decimal_injective(a / 10, b / 10);
    }
}

/// Different positions have different keys.
pub proof fn position_key_injective(p: u16, q: u16)
    requires
        position_key(p) == position_key(q),
    ensures
        p == q,
{
    decimal_injective(p as nat, q as nat);
}

fn digit_text(d: u16) -> (text: &'static str)
    requires
        d < 10,
    ensures
        text@ == seq![digit(d as int)],
{
    proof {
        reveal_strlit("0");
        reveal_strlit("1");
        reveal_strlit("2");
        reveal_strlit("3");
        reveal_strlit("4");
        reveal_strlit("5");
        reveal_strlit("6");
        reveal_strlit("7");
        reveal_strlit("8");
        reveal_strlit("9");
    }
    let text = if d == 0 {
        "0"
    } else if d == 1 {
        "1"
    } else if d == 2 {
        "2"
    } else if d == 3 {
        "3"
    } else if d == 4 {
        "4"
    } else if d == 5 {
        "5"
    } else if d == 6 {
        "6"
    } else if d == 7 {
        "7"
    } else if d == 8 {
        "8"
    } else {
        "9"
    };
    assert(text@ =~= seq![digit(d as int)]);
    text
}

/// The key of the cell at `position`, as a string: the position in decimal.
pub fn token_key(position: u16) -> (key: String)
    ensures
        key@ == position_key(position),
    decreases position,
{
    if position < 10 {
        digit_text(position).to_owned()
    } else {
        let head = token_key(position / 10);
        let key = head.concat(digit_text(position % 10));
        assert(key@ =~= decimal((position / 10) as nat).push(digit((position % 10) as int)));
        key
    }
}

/// The text that the `Debug` format of the standard library gives a square
/// of colours.
pub uninterp spec fn color_map_debug(colors: ColorMap) -> Seq<char>;

/// `format!` with the `Debug` format of a square of colours.
#[verifier::external_body]
pub(crate) fn debug_text(colors: &ColorMap) -> (text: String)
    ensures
        text@ == color_map_debug(*colors),
{
    format!("{:?}", colors)
}

} // verus!
