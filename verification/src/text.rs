//! Numbers as they are printed.

use vstd::prelude::*;
use vstd::string::StringExecFns;

verus! {

/// The character for one digit, up to the base sixteen.
pub open spec fn digit(d: int) -> char {
    if d == 0 {
        '0'
    } else if d == 1 {
        '1'
    } else if d == 2 {
        '2'
    } else if d == 3 {
        '3'
    } else if d == 4 {
        '4'
    } else if d == 5 {
        '5'
    } else if d == 6 {
        '6'
    } else if d == 7 {
        '7'
    } else if d == 8 {
        '8'
    } else if d == 9 {
        '9'
    } else if d == 10 {
        'a'
    } else if d == 11 {
        'b'
    } else if d == 12 {
        'c'
    } else if d == 13 {
        'd'
    } else if d == 14 {
        'e'
    } else {
        'f'
    }
}

/// The digits of `v` to the base `base`, most significant first, without
/// leading zeros; zero has the one digit `0`.
pub open spec fn digits(v: nat, base: nat) -> Seq<char>
    decreases v,
{
    if base < 2 || v < base {
        seq![digit(v as int)]
    } else {
        proof {
            vstd::arithmetic::div_mod::lemma_div_decreases(v as int, base as int);
            vstd::arithmetic::div_mod::lemma_div_pos_is_pos(v as int, base as int);
        }
        digits(v / base, base).push(digit((v % base) as int))
    }
}

/// `n` zeros; none for a negative `n`.
pub open spec fn zeros(n: int) -> Seq<char> {
    Seq::new(
        if n > 0 {
            n as nat
        } else {
            0
        },
        |i: int| '0',
    )
}

/// `v` as `{:#08x}` prints it: `0x`, then the hexadecimal digits in lower
/// case, with zeros in front of them while they are fewer than six.
pub open spec fn hex_text(v: nat) -> Seq<char> {
    seq!['0', 'x'] + zeros(6 - digits(v, 16).len()) + digits(v, 16)
}

/// `v` as `{}` prints it: the decimal digits, behind a minus sign if `v` is
/// negative.
pub open spec fn decimal_text(v: int) -> Seq<char> {
    if v < 0 {
        seq!['-'] + digits((-v) as nat, 10)
    } else {
        digits(v as nat, 10)
    }
}

/// The characters for digits that are listed least significant first.
pub open spec fn text_of_reversed(reversed: Seq<u8>) -> Seq<char> {
    Seq::new(reversed.len(), |i: int| digit(reversed[reversed.len() - 1 - i] as int))
}

/// The digits of `rest` that are still to come in front of those found.
spec fn leading(rest: nat, base: nat) -> Seq<char> {
    if rest == 0 {
        Seq::empty()
    } else {
        digits(rest, base)
    }
}

proof fn lemma_leading(rest: nat, base: nat)
    requires
        base >= 2,
        rest > 0,
    ensures
        rest / base < rest,
        rest % base < base,
        digits(rest, base) == leading(rest / base, base) + seq![digit((rest % base) as int)],
{
    vstd::arithmetic::div_mod::lemma_div_decreases(rest as int, base as int);
    vstd::arithmetic::div_mod::lemma_mod_pos_bound(rest as int, base as int);
    if rest < base {
        vstd::arithmetic::div_mod::lemma_basic_div(rest as int, base as int);
        vstd::arithmetic::div_mod::lemma_small_mod(rest, base);
    } else {
        vstd::arithmetic::div_mod::lemma_div_non_zero(rest as int, base as int);
    }
}

fn digit_str(d: u8) -> (text: &'static str)
    requires
        d < 16,
    ensures
        text@ == seq![digit(d as int)],
{
    proof {
        reveal_strlit("0");
        reveal_strlit("1");
        reveal_strlit("2");
        reveal_strlit("3");
        reveal_strlit("4");
        reveal_strlit("5");
        reveal_strlit("6");
        reveal_strlit("7");
        reveal_strlit("8");
        reveal_strlit("9");
        reveal_strlit("a");
        reveal_strlit("b");
        reveal_strlit("c");
        reveal_strlit("d");
        reveal_strlit("e");
        reveal_strlit("f");
    }
    match d {
        0 => "0",
        1 => "1",
        2 => "2",
        3 => "3",
        4 => "4",
        5 => "5",
        6 => "6",
        7 => "7",
        8 => "8",
        9 => "9",
        10 => "a",
        11 => "b",
        12 => "c",
        13 => "d",
        14 => "e",
        _ => "f",
    }
}

/// The digits of `v` to the base `base`, least significant first.
fn digits_reversed(v: u64, base: u64) -> (reversed: Vec<u8>)
    requires
        2 <= base <= 16,
    ensures
        forall|k: int| 0 <= k < reversed@.len() ==> reversed@[k] < 16,
        text_of_reversed(reversed@) == digits(v as nat, base as nat),
{
    let mut reversed: Vec<u8> = Vec::new();
    let mut rest: u64 = v;
    loop
        invariant_except_break
            2 <= base <= 16,
            forall|k: int| 0 <= k < reversed@.len() ==> reversed@[k] < 16,
            reversed@.len() == 0 ==> rest == v,
            reversed@.len() > 0 ==> rest > 0,
            reversed@.len() > 0 ==> digits(v as nat, base as nat) == leading(
                rest as nat,
                base as nat,
            ) + text_of_reversed(reversed@),
        ensures
            forall|k: int| 0 <= k < reversed@.len() ==> reversed@[k] < 16,
            text_of_reversed(reversed@) == digits(v as nat, base as nat),
        decreases rest,
    {
        let d = (rest % base) as u8;
        proof {
            if rest > 0 {
                lemma_leading(rest as nat, base as nat);
            } else {
                vstd::arithmetic::div_mod::lemma_basic_div(0, base as int);
                vstd::arithmetic::div_mod::lemma_small_mod(0, base as nat);
            }
        }
        reversed.push(d);
        let next = rest / base;
        if next == 0 {
            break ;
        }
        rest = next;
    }
    reversed
}

/// Appends to `text` the characters for digits that are listed least
/// significant first.
fn append_reversed(text: &mut String, reversed: &Vec<u8>)
    requires
        forall|k: int| 0 <= k < reversed@.len() ==> reversed@[k] < 16,
    ensures
        final(text)@ == old(text)@ + text_of_reversed(reversed@),
{
    let ghost start = text@;
    let mut i: usize = reversed.len();
    while i > 0
        invariant
            i <= reversed@.len(),
            forall|k: int| 0 <= k < reversed@.len() ==> reversed@[k] < 16,
            text@ == start + text_of_reversed(reversed@).take(reversed@.len() - i),
        decreases i,
    {
        i -= 1;
        text.append(digit_str(reversed[i]));
    }
}

/// Formats `v` the way `{:#08x}` does.
pub fn hex(v: u64) -> (text: String)
    ensures
        text@ == hex_text(v as nat),
{
    let mut reversed = digits_reversed(v, 16);
    let ghost significant = reversed@.len();
    while reversed.len() < 6
        invariant
            significant == digits(v as nat, 16).len(),
            significant <= reversed@.len(),
            reversed@.len() <= 6 || reversed@.len() == significant,
            forall|k: int| 0 <= k < reversed@.len() ==> reversed@[k] < 16,
            text_of_reversed(reversed@) == zeros(reversed@.len() - significant) + digits(
                v as nat,
                16,
            ),
        decreases 6 - reversed.len(),
    {
        let ghost before = reversed@;
        reversed.push(0);
        assert(text_of_reversed(reversed@) =~= seq!['0'] + text_of_reversed(before));
    }
    let mut text = String::from_str("0x");
    proof {
        reveal_strlit("0x");
    }
    append_reversed(&mut text, &reversed);
    text
}

/// Formats `v` the way `{}` does.
pub fn decimal(v: i32) -> (text: String)
    ensures
        text@ == decimal_text(v as int),
{
    let mut text = String::new();
    let magnitude: u64 = if v < 0 {
        proof {
            reveal_strlit("-");
        }
        text.append("-");
        (-(v as i64)) as u64
    } else {
        v as u64
    };
    let reversed = digits_reversed(magnitude, 10);
    append_reversed(&mut text, &reversed);
    text
}

} // verus!
