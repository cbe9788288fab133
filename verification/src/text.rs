//! Decimal numerals and the other pieces of text that messages are built from.

use vstd::prelude::*;
use vstd::string::StringExecFns;

verus! {

/// The numeral of one decimal digit; that of nine for any larger number.
pub open spec fn digit_spec(d: nat) -> Seq<char> {
    if d == 0 {
        "0"@
    } else if d == 1 {
        "1"@
    } else if d == 2 {
        "2"@
    } else if d == 3 {
        "3"@
    } else if d == 4 {
        "4"@
    } else if d == 5 {
        "5"@
    } else if d == 6 {
        "6"@
    } else if d == 7 {
        "7"@
    } else if d == 8 {
        "8"@
    } else {
        "9"@
    }
}

/// The decimal numeral of a natural number, without leading zeros.
pub open spec fn decimal_spec(n: nat) -> Seq<char>
    decreases n,
{
    if n < 10 {
        digit_spec(n)
    } else {
        decimal_spec(n / 10) + digit_spec(n % 10)
    }
}

/// The numeral of one decimal digit; that of nine for any larger number.
pub fn digit(d: u64) -> (s: &'static str)
    ensures
        s@ == digit_spec(d as nat),
{
    if d == 0 {
        "0"
    } else if d == 1 {
        "1"
    } else if d == 2 {
        "2"
    } else if d == 3 {
        "3"
    } else if d == 4 {
        "4"
    } else if d == 5 {
        "5"
    } else if d == 6 {
        "6"
    } else if d == 7 {
        "7"
    } else if d == 8 {
        "8"
    } else {
        "9"
    }
}

/// The decimal numeral of a number, without leading zeros.
pub fn decimal(n: u64) -> (s: String)
    ensures
        s@ == decimal_spec(n as nat),
    decreases n,
{
    if n < 10 {
        String::from_str(digit(n))
    } else {
        let mut s = decimal(n / 10);
        s.append(digit(n % 10));
        s
    }
}

/// The decimal numeral of a size.
pub fn decimal_of_size(n: usize) -> (s: String)
    ensures
        s@ == decimal_spec(n as nat),
{
    decimal(n as u64)
}

/// Every numeral has at least one digit.
pub proof fn lemma_decimal_not_empty(n: nat)
    ensures
        decimal_spec(n).len() >= 1,
    decreases n,
{
    reveal_strlit("0");
    reveal_strlit("1");
    reveal_strlit("2");
    reveal_strlit("3");
    reveal_strlit("4");
    reveal_strlit("5");
    reveal_strlit("6");
    reveal_strlit("7");
    reveal_strlit("8");
    reveal_strlit("9");
    if n >= 10 {
        lemma_decimal_not_empty(n / 10);
    }
}

/// The characters of a text, one by one.
pub fn characters(text: &str) -> (r: Vec<char>)
    ensures
        r@ == text@,
{
    let mut r: Vec<char> = Vec::new();
    for c in it: text.chars()
        invariant
            it.seq() == text@,
            r@ == it.seq().take(it.index() as int),
    {
        r.push(c);
    }
    r
}

/// Whether `a` comes strictly before `b` in lexical order: at the first
/// place where they differ `a` has the smaller character, or `a` ends there
/// and `b` goes on.
pub open spec fn lex_less_spec(a: Seq<char>, b: Seq<char>) -> bool {
    exists|k: int|
        0 <= k <= a.len() && k <= b.len() && #[trigger] a.take(k) == b.take(k) && k < b.len() && (k
            < a.len() ==> (a[k] as u32) < (b[k] as u32))
}

/// Whether `a` comes strictly before `b` in lexical order.
pub fn lex_less(a: &str, b: &str) -> (r: bool)
    ensures
        r == lex_less_spec(a@, b@),
{
    let x = characters(a);
    let y = characters(b);
    let mut i: usize = 0;
    while i < x.len() && i < y.len() && x[i] == y[i]
        invariant
            x@ == a@,
            y@ == b@,
            i <= x.len(),
            i <= y.len(),
            forall|j: int| 0 <= j < i ==> x@[j] == y@[j],
        decreases x.len() - i,
    {
        i = i + 1;
    }
    let r = i < y.len() && (i >= x.len() || (x[i] as u32) < (y[i] as u32));
    proof {
        let n = i as int;
        assert(a@.take(n) =~= b@.take(n));
        if !r {
            assert forall|k: int|
                0 <= k <= a@.len() && k <= b@.len() && #[trigger] a@.take(k) == b@.take(k) && k
                    < b@.len() implies !(k < a@.len() ==> (a@[k] as u32) < (b@[k] as u32)) by {
                if k > n {
                    assert(a@.take(k)[n] == a@[n]);
                    assert(b@.take(k)[n] == b@[n]);
                }
            }
        }
    }
    r
}

} // verus!
