//! Character-sequence helpers shared by the renderers and the greeter.
use vstd::prelude::*;

verus! {

/// `n` copies of the character `c`.
pub open spec fn repeat_char(c: char, n: nat) -> Seq<char> {
    Seq::new(n, |_i: int| c)
}

/// The decimal digit character for `d` (which must be below ten).
pub open spec fn digit_char(d: nat) -> char {
    ((d + 48) as u32) as char
}

/// The decimal notation of `n`, most significant digit first, no leading zeros.
pub open spec fn decimal(n: nat) -> Seq<char>
    decreases n,
{
    if n < 10 {
        seq![digit_char(n)]
    } else {
        decimal(n / 10).push(digit_char(n % 10))
    }
}

/// The number written by a string of decimal digits, most significant first
/// (the digit `c` counts `c - '0'`).
pub open spec fn decimal_value(s: Seq<char>) -> int
    decreases s.len(),
{
    if s.len() == 0 {
        0
    } else {
        decimal_value(s.drop_last()) * 10 + (s.last() as int - '0' as int)
    }
}

/// `decimal(n)` is the usual notation of `n`: a non-empty string of the
/// characters `'0'` to `'9'` that reads back as `n`, with no leading zero
/// unless `n` is zero.
pub proof fn lemma_decimal_reads_back(n: nat)
    ensures
        decimal(n).len() >= 1,
        forall|i: int|
            0 <= i < decimal(n).len() ==> '0' as int <= #[trigger] decimal(n)[i] as int <= '9' as int,
        decimal_value(decimal(n)) == n,
        n > 0 ==> decimal(n)[0] != '0',
    decreases n,
{
    if n < 10 {
        assert(digit_char(n) as int == n + 48);
        assert(decimal(n).drop_last() =~= Seq::<char>::empty());
        assert('0' as int == 48);
        assert(decimal(n).last() == digit_char(n));
        assert(decimal_value(decimal(n)) == decimal_value(Seq::<char>::empty()) * 10 + (
        digit_char(n) as int - 48));
    } else {
        lemma_decimal_reads_back(n / 10);
        let d = (n % 10) as nat;
        assert(digit_char(d) as int == d + 48);
        assert(decimal(n).drop_last() =~= decimal(n / 10));
        assert(decimal(n)[0] == decimal(n / 10)[0]);
        assert forall|i: int|
            0 <= i < decimal(n).len() implies '0' as int <= #[trigger] decimal(n)[i] as int
            <= '9' as int by {
            if i < decimal(n / 10).len() {
                assert(decimal(n)[i] == decimal(n / 10)[i]);
            }
        }
        assert('0' as int == 48);
        assert(decimal(n).last() == digit_char(d));
        assert(decimal_value(decimal(n)) == decimal_value(decimal(n / 10)) * 10 + (digit_char(d) as int - 48));
        assert(decimal_value(decimal(n)) == (n / 10) as int * 10 + d);
    }
}

/// Appends one character; std's `String::push`, which appends `c` to the end.
#[verifier::external_body]
pub(crate) fn string_push(s: &mut String, c: char)
    ensures
        final(s)@ == old(s)@.push(c),
{
    s.push(c);
}

/// Removes the last character; std's `String::pop`, which returns `None` on an
/// empty string and otherwise removes and returns the last character.
#[verifier::external_body]
pub(crate) fn string_pop(s: &mut String) -> (c: Option<char>)
    ensures
        old(s)@.len() == 0 ==> c is None && final(s)@ == old(s)@,
        old(s)@.len() > 0 ==> c == Some(old(s)@.last()) && final(s)@ == old(s)@.drop_last(),
{
    s.pop()
}

/// Empties the string; std's `String::clear`, which truncates it to length zero.
#[verifier::external_body]
pub(crate) fn string_clear(s: &mut String)
    ensures
        final(s)@ == Seq::<char>::empty(),
{
    s.clear();
}

/// Appends `n` copies of `c`.
pub fn push_repeat(s: &mut String, c: char, n: usize)
    ensures
        final(s)@ == old(s)@ + repeat_char(c, n as nat),
{
    let ghost start = s@;
    let mut i: usize = 0;
    while i < n
        invariant
            i <= n,
            s@ == start + repeat_char(c, i as nat),
        decreases n - i,
    {
        string_push(s, c);
        i = i + 1;
        assert(s@ =~= start + repeat_char(c, i as nat));
    }
}

/// A fresh string made of `n` copies of `c`.
pub fn repeat(c: char, n: usize) -> (s: String)
    ensures
        s@ == repeat_char(c, n as nat),
{
    let mut s = String::new();
    push_repeat(&mut s, c, n);
    assert(s@ =~= repeat_char(c, n as nat));
    s
}

/// Appends the decimal notation of `n`.
pub fn push_decimal(s: &mut String, n: u32)
    ensures
        final(s)@ == old(s)@ + decimal(n as nat),
    decreases n,
{
    let ghost start = s@;
    if n >= 10 {
        push_decimal(s, n / 10);
    }
    let d: u32 = n % 10;
    let c: char = match d {
        0 => '0',
        1 => '1',
        2 => '2',
        3 => '3',
        4 => '4',
        5 => '5',
        6 => '6',
        7 => '7',
        8 => '8',
        _ => '9',
    };
    assert(c == digit_char(d as nat));
    string_push(s, c);
    assert(s@ =~= start + decimal(n as nat));
}

} // verus!
