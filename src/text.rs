use vstd::prelude::*;
use vstd::string::*;

verus! {

/// Relies on String::push: the character is appended at the end.
#[verifier::external_body]
pub(crate) fn push_char(s: &mut String, c: char)
    ensures
        final(s)@ == old(s)@.push(c),
{
    s.push(c)
}

/// Whether two strings hold the same characters.
pub fn str_eq(a: &str, b: &str) -> (r: bool)
    ensures
        r == (a@ == b@),
{
    let n = a.unicode_len();
    if n != b.unicode_len() {
        return false;
    }
    let mut i: usize = 0;
    while i < n
        invariant
            n == a@.len(),
            n == b@.len(),
            i <= n,
            forall|j: int| 0 <= j < i ==> a@[j] == b@[j],
        decreases n - i,
    {
        if a.get_char(i) != b.get_char(i) {
            return false;
        }
        i += 1;
    }
    assert(a@ =~= b@);
    true
}

/// The decimal digit character for a value below ten.
pub open spec fn digit_char(d: nat) -> char {
    "0123456789"@[d as int]
}

/// The decimal representation of a natural number, without leading zeros.
pub open spec fn decimal(n: nat) -> Seq<char>
    decreases n,
{
    if n < 10 {
        seq![digit_char(n)]
    } else {
        decimal(n / 10).push(digit_char(n % 10))
    }
}

fn push_digit(s: &mut String, d: u8)
    requires
        d < 10,
    ensures
        final(s)@ == old(s)@.push(digit_char(d as nat)),
{
    proof {
        reveal_strlit("0123456789");
    }
    let c = "0123456789".get_char(d as usize);
    push_char(s, c);
}

/// Appends the decimal representation of `n`.
pub fn push_decimal(s: &mut String, n: u8)
    ensures
        final(s)@ == old(s)@ + decimal(n as nat),
{
    let ghost s0 = s@;
    if n >= 100 {
        push_digit(s, n / 100);
        push_digit(s, (n / 10) % 10);
        push_digit(s, n % 10);
        proof {
            let a = digit_char((n / 100) as nat);
            let b = digit_char(((n / 10) % 10) as nat);
            let c = digit_char((n % 10) as nat);
            assert((n / 10) / 10 == n / 100);
            assert(decimal((n / 100) as nat) == seq![a]);
            assert(decimal((n / 10) as nat) == seq![a].push(b));
            assert(decimal(n as nat) == seq![a].push(b).push(c));
            assert(s@ =~= s0 + decimal(n as nat));
        }
    } else if n >= 10 {
        push_digit(s, n / 10);
        push_digit(s, n % 10);
        proof {
            let a = digit_char((n / 10) as nat);
            let b = digit_char((n % 10) as nat);
            assert(decimal((n / 10) as nat) == seq![a]);
            assert(decimal(n as nat) == seq![a].push(b));
            assert(s@ =~= s0 + decimal(n as nat));
        }
    } else {
        push_digit(s, n);
        assert(s@ =~= s0 + decimal(n as nat));
    }
}

} // verus!
