//! Rendering of numbers and status messages as text, and the fault marker.

use vstd::prelude::*;
use vstd::string::StrSliceExecFns;
use vstd::string::StringExecFns;

verus! {

/// The digits of base sixteen in upper case; base ten uses the first ten.
pub open spec fn digit_chars() -> Seq<char> {
    seq!['0', '1', '2', '3', '4', '5', '6', '7', '8', '9', 'A', 'B', 'C', 'D', 'E', 'F']
}

/// `n` written in base ten, without leading zeros.
pub open spec fn decimal(n: nat) -> Seq<char>
    decreases n,
{
    if n < 10 {
        seq![digit_chars()[n as int]]
    } else {
        decimal(n / 10).push(digit_chars()[(n % 10) as int])
    }
}

/// `n` written in base sixteen, upper case, without leading zeros.
pub open spec fn hex(n: nat) -> Seq<char>
    decreases n,
{
    if n < 16 {
        seq![digit_chars()[n as int]]
    } else {
        hex(n / 16).push(digit_chars()[(n % 16) as int])
    }
}

/// A one-character string literal for a digit below sixteen.
fn digit_str(d: u32) -> (r: &'static str)
    requires
        d < 16,
    ensures
        r@ == seq![digit_chars()[d as int]],
{
    proof {
        reveal_strlit("0");
        reveal_strlit("1");
        reveal_strlit("2");
        reveal_strlit("3");
        reveal_strlit("4");
        reveal_strlit("5");
        reveal_strlit("6");
        reveal_strlit("7");
        reveal_strlit("8");
        reveal_strlit("9");
        reveal_strlit("A");
        reveal_strlit("B");
        reveal_strlit("C");
        reveal_strlit("D");
        reveal_strlit("E");
        reveal_strlit("F");
    }
    let r = match d {
        0 => "0",
        1 => "1",
        2 => "2",
        3 => "3",
        4 => "4",
        5 => "5",
        6 => "6",
        7 => "7",
        8 => "8",
        9 => "9",
        10 => "A",
        11 => "B",
        12 => "C",
        13 => "D",
        14 => "E",
        _ => "F",
    };
    r
}

/// Appends `n` in base ten.
pub fn push_decimal(s: &mut String, n: u32)
    ensures
        final(s)@ == old(s)@ + decimal(n as nat),
    decreases n,
{
    if n >= 10 {
        push_decimal(s, n / 10);
    }
    s.append(digit_str(n % 10));
    assert(s@ =~= old(s)@ + decimal(n as nat));
}

/// Appends `n` in base sixteen, upper case.
pub fn push_hex(s: &mut String, n: u32)
    ensures
        final(s)@ == old(s)@ + hex(n as nat),
    decreases n,
{
    if n >= 16 {
        push_hex(s, n / 16);
    }
    s.append(digit_str(n % 16));
    assert(s@ =~= old(s)@ + hex(n as nat));
}

/// A voltage given in millivolts, written in volts rounded to two decimals
/// (half a centivolt rounds up).
pub open spec fn volts_text(mv: nat) -> Seq<char> {
    let c = (mv + 5) / 10;
    decimal(c / 100) + seq!['.', digit_chars()[((c % 100) / 10) as int], digit_chars()[(c % 10) as int]]
}

/// Appends a voltage given in millivolts, as `volts_text` writes it.
pub fn push_volts(s: &mut String, mv: u32)
    ensures
        final(s)@ == old(s)@ + volts_text(mv as nat),
{
    let c: u32 = mv / 10 + if mv % 10 >= 5 { 1 } else { 0 };
    assert(c == (mv + 5) / 10);
    push_decimal(s, c / 100);
    proof {
        reveal_strlit(".");
    }
    s.append(".");
    s.append(digit_str(c % 100 / 10));
    s.append(digit_str(c % 10));
    assert(s@ =~= old(s)@ + volts_text(mv as nat));
}

/// The token that marks a status message as a fault.
pub open spec fn marker() -> Seq<char> {
    seq!['D', 'T', 'C']
}

/// `s` holds the fault marker somewhere.
pub open spec fn has_marker(s: Seq<char>) -> bool {
    exists|i: int| 0 <= i && i + 3 <= s.len() && #[trigger] s.subrange(i, i + 3) == marker()
}

/// Every character of `decimal(n)` is a digit of base ten.
pub proof fn lemma_decimal_digits(n: nat)
    ensures
        forall|i: int|
            0 <= i < decimal(n).len() ==> exists|d: int| 0 <= d < 10 && #[trigger] decimal(n)[i] == digit_chars()[d],
    decreases n,
{
    if n >= 10 {
        lemma_decimal_digits(n / 10);
        assert forall|i: int| 0 <= i < decimal(n).len() implies exists|d: int|
            0 <= d < 10 && #[trigger] decimal(n)[i] == digit_chars()[d] by {
            if i < decimal(n / 10).len() {
                assert(decimal(n)[i] == decimal(n / 10)[i]);
            } else {
                assert(decimal(n)[i] == digit_chars()[(n % 10) as int]);
            }
        }
    } else {
        assert(decimal(n)[0] == digit_chars()[n as int]);
    }
}

/// A text with no `'D'` holds no fault marker.
pub proof fn lemma_no_d_no_marker(s: Seq<char>)
    requires
        forall|i: int| 0 <= i < s.len() ==> s[i] != 'D',
    ensures
        !has_marker(s),
{
    if has_marker(s) {
        let i = choose|i: int| 0 <= i && i + 3 <= s.len() && #[trigger] s.subrange(i, i + 3) == marker();
        assert(s.subrange(i, i + 3)[0] == s[i]);
    }
}

/// A text that starts with the fault marker holds it.
pub proof fn lemma_leading_marker(s: Seq<char>)
    requires
        s.len() >= 3,
        s[0] == 'D',
        s[1] == 'T',
        s[2] == 'C',
    ensures
        has_marker(s),
{
    assert(s.subrange(0, 3) =~= marker());
    let i: int = 0;
    assert(s.subrange(i, i + 3) == marker());
}

/// Tells whether a status message denotes a fault.
pub fn is_fault(s: &String) -> (r: bool)
    ensures
        r == has_marker(s@),
{
    let t: &str = s.as_str();
    let n: usize = t.unicode_len();
    if n < 3 {
        return false;
    }
    let mut i: usize = 0;
    while i < n - 2
        invariant
            n == s@.len(),
            t@ == s@,
            n >= 3,
            i <= n - 2,
            forall|j: int| 0 <= j < i ==> #[trigger] s@.subrange(j, j + 3) != marker(),
        decreases n - i,
    {
        if t.get_char(i) == 'D' && t.get_char(i + 1) == 'T' && t.get_char(i + 2) == 'C' {
            assert(s@.subrange(i as int, i + 3) =~= marker());
            return true;
        }
        assert(s@.subrange(i as int, i + 3)[0] == s@[i as int]);
        assert(s@.subrange(i as int, i + 3)[1] == s@[i + 1]);
        assert(s@.subrange(i as int, i + 3)[2] == s@[i + 2]);
        i = i + 1;
    }
    false
}

} // verus!
