//! Short texts for long byte vectors.

use vstd::prelude::*;
use vstd::string::*;

verus! {

/// The number of items that `debug_vec` shows before it cuts the list short.
pub const VEC_DEBUG_LIMIT: usize = 10;

/// The character of a decimal digit.
pub open spec fn digit(d: int) -> char {
    if d == 0 {
        '0'
    } else if d == 1 {
        '1'
    } else if d == 2 {
        '2'
    } else if d == 3 {
        '3'
    } else if d == 4 {
        '4'
    } else if d == 5 {
        '5'
    } else if d == 6 {
        '6'
    } else if d == 7 {
        '7'
    } else if d == 8 {
        '8'
    } else {
        '9'
    }
}

/// A number in decimal, without leading zeros.
pub open spec fn decimal(n: nat) -> Seq<char>
    decreases n,
{
    if n < 10 {
        seq![digit(n as int)]
    } else {
        decimal(n / 10).push(digit((n % 10) as int))
    }
}

/// The numbers in decimal with `, ` between them.
pub open spec fn listed(items: Seq<u8>) -> Seq<char>
    decreases items.len(),
{
    if items.len() == 0 {
        Seq::empty()
    } else if items.len() == 1 {
        decimal(items[0] as nat)
    } else {
        listed(items.drop_last()) + ", "@ + decimal(items.last() as nat)
    }
}

/// The text of a byte vector: its items in square brackets where there are
/// at most `VEC_DEBUG_LIMIT` of them, else the first `VEC_DEBUG_LIMIT` and
/// `...` in their place for the rest.
pub open spec fn debug_vec_text(items: Seq<u8>) -> Seq<char> {
    if items.len() <= VEC_DEBUG_LIMIT {
        "["@ + listed(items) + "]"@
    } else {
        "["@ + listed(items.subrange(0, VEC_DEBUG_LIMIT as int)) + ", ...]"@
    }
}

/// Gives the text of one decimal digit.
fn digit_str(d: u32) -> (r: &'static str)
    requires
        d < 10,
    ensures
        r@ == seq![digit(d as int)],
{
    proof {
        reveal_strlit("0");
        reveal_strlit("1");
        reveal_strlit("2");
        reveal_strlit("3");
        reveal_strlit("4");
        reveal_strlit("5");
        reveal_strlit("6");
        reveal_strlit("7");
        reveal_strlit("8");
        reveal_strlit("9");
    }
    let r = if d == 0 {
        "0"
    } else if d == 1 {
        "1"
    } else if d == 2 {
        "2"
    } else if d == 3 {
        "3"
    } else if d == 4 {
        "4"
    } else if d == 5 {
        "5"
    } else if d == 6 {
        "6"
    } else if d == 7 {
        "7"
    } else if d == 8 {
        "8"
    } else {
        "9"
    };
    assert(r@ =~= seq![digit(d as int)]);
    r
}

/// Writes a number in decimal.
pub fn decimal_string(n: u32) -> (r: String)
    ensures
        r@ == decimal(n as nat),
    decreases n,
{
    if n < 10 {
        String::from_str(digit_str(n))
    } else {
        let r = decimal_string(n / 10).concat(digit_str(n % 10));
        assert(r@ =~= decimal((n / 10) as nat).push(digit((n % 10) as int)));
        r
    }
}

/// Writes the first `count` items with `, ` between them.
fn list_string(val: &Vec<u8>, count: usize) -> (r: String)
    requires
        count <= val@.len(),
    ensures
        r@ == listed(val@.subrange(0, count as int)),
{
    let mut out = String::new();
    let mut i: usize = 0;
    assert(val@.subrange(0, 0) =~= Seq::<u8>::empty());
    while i < count
        invariant
            i <= count <= val@.len(),
            out@ == listed(val@.subrange(0, i as int)),
        decreases count - i,
    {
        let ghost before = val@.subrange(0, i as int);
        let ghost now = val@.subrange(0, i + 1);
        assert(now.drop_last() =~= before);
        assert(now.last() == val@[i as int]);
        let item = decimal_string(val[i] as u32);
        if i > 0 {
            out.append(", ");
        }
        out.append(item.as_str());
        i += 1;
        assert(out@ =~= listed(now)) by {
            if now.len() == 1 {
                assert(before =~= Seq::<u8>::empty());
                assert(listed(before) =~= Seq::<char>::empty());
            }
        }
    }
    out
}

/// Writes a byte vector as `{:?}` would, but no more than the first
/// `VEC_DEBUG_LIMIT` items of it: `...` stands for the rest.
pub fn debug_vec(val: &Vec<u8>) -> (r: String)
    ensures
        r@ == debug_vec_text(val@),
{
    let mut out = String::from_str("[");
    if val.len() <= VEC_DEBUG_LIMIT {
        let items = list_string(val, val.len());
        assert(val@.subrange(0, val@.len() as int) =~= val@);
        out.append(items.as_str());
        out.append("]");
    } else {
        let items = list_string(val, VEC_DEBUG_LIMIT);
        out.append(items.as_str());
        out.append(", ...]");
    }
    out
}

} // verus!
