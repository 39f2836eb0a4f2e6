//! Character-level helpers shared by the validator, the payload encoder and
//! the SVG renderer.
use vstd::prelude::*;
use vstd::std_specs::iter::IteratorSpec;

verus! {

/// An ASCII decimal digit.
pub open spec fn is_digit(c: char) -> bool {
    '0' <= c && c <= '9'
}

/// Every character of `s` is an ASCII decimal digit.
pub open spec fn all_digits(s: Seq<char>) -> bool {
    forall|i: int| 0 <= i < s.len() ==> is_digit(#[trigger] s[i])
}

/// The numeric value of a digit character.
pub open spec fn digit_value(c: char) -> nat {
    (c as u32 - '0' as u32) as nat
}

/// The value of a string of decimal digits, most significant digit first.
pub open spec fn digits_value(s: Seq<char>) -> nat
    decreases s.len(),
{
    if s.len() == 0 {
        0
    } else {
        10 * digits_value(s.drop_last()) + digit_value(s.last())
    }
}

/// The character of a digit value below ten.
pub open spec fn digit_char(d: nat) -> char {
    ((d + '0' as u32) as u32) as char
}

/// The decimal text of `n`, without sign or leading zeros.
pub open spec fn decimal(n: nat) -> Seq<char>
    decreases n,
{
    if n < 10 {
        seq![digit_char(n)]
    } else {
        decimal(n / 10).push(digit_char(n % 10))
    }
}

/// The characters of `s`, in order.
pub fn chars_of(s: &str) -> (r: Vec<char>)
    ensures
        r@ == s@,
{
    let mut out: Vec<char> = Vec::new();
    let mut it = s.chars();
    proof {
        broadcast use vstd::string::axiom_spec_iter;
    }
    loop
        invariant
            it.obeys_prophetic_iter_laws(),
            out@ + it.remaining() == s@,
            it.decrease() is Some,
        decreases it.decrease()->0,
    {
        let ghost before = it.remaining();
        match it.next() {
            Some(c) => {
                proof {
                    broadcast use vstd::string::next_postcondition;
                }
                assert(out@.push(c) + it.remaining() =~= out@ + before);
                out.push(c);
            },
            None => {
                proof {
                    broadcast use vstd::string::next_postcondition;
                }
                assert(out@ =~= s@);
                return out;
            },
        }
    }
}

/// The one-character text of a digit value.
fn digit_text(d: usize) -> (r: &'static str)
    requires
        d < 10,
    ensures
        r@ == seq![digit_char(d as nat)],
{
    proof {
        reveal_strlit("0");
        reveal_strlit("1");
        reveal_strlit("2");
        reveal_strlit("3");
        reveal_strlit("4");
        reveal_strlit("5");
        reveal_strlit("6");
        reveal_strlit("7");
        reveal_strlit("8");
        reveal_strlit("9");
    }
    let r = if d == 0 {
        "0"
    } else if d == 1 {
        "1"
    } else if d == 2 {
        "2"
    } else if d == 3 {
        "3"
    } else if d == 4 {
        "4"
    } else if d == 5 {
        "5"
    } else if d == 6 {
        "6"
    } else if d == 7 {
        "7"
    } else if d == 8 {
        "8"
    } else {
        "9"
    };
    assert(r@ =~= seq![digit_char(d as nat)]);
    r
}

/// The decimal text of `n`.
pub fn decimal_string(n: usize) -> (r: String)
    ensures
        r@ == decimal(n as nat),
    decreases n,
{
    if n < 10 {
        String::from_str(digit_text(n))
    } else {
        let mut s = decimal_string(n / 10);
        s.append(digit_text(n % 10));
        s
    }
}

/// The bound at which [`digits_value_capped`] stops counting.
pub const VALUE_CAP: u64 = 1_000_000_000;

/// `n`, or [`VALUE_CAP`] where `n` reaches it.
pub open spec fn capped(n: nat) -> nat {
    if n < VALUE_CAP {
        n
    } else {
        VALUE_CAP as nat
    }
}

proof fn lemma_digits_value_step(s: Seq<char>, lo: int, k: int)
    requires
        0 <= lo <= k < s.len(),
    ensures
        digits_value(s.subrange(lo, k + 1)) == 10 * digits_value(s.subrange(lo, k))
            + digit_value(s[k]),
{
    assert(s.subrange(lo, k + 1).drop_last() =~= s.subrange(lo, k));
}

proof fn lemma_capped_step(v: nat, d: nat)
    requires
        d < 10,
    ensures
        capped(10 * capped(v) + d) == capped(10 * v + d),
{
    if v >= VALUE_CAP {
        assert(10 * v + d >= VALUE_CAP) by (nonlinear_arith)
            requires
                v >= VALUE_CAP,
        ;
    }
}

/// Whether the characters `v[lo..hi]` are all decimal digits.
pub fn all_digits_in(v: &Vec<char>, lo: usize, hi: usize) -> (r: bool)
    requires
        lo <= hi <= v@.len(),
    ensures
        r == all_digits(v@.subrange(lo as int, hi as int)),
{
    let mut k = lo;
    while k < hi
        invariant
            lo <= k <= hi <= v@.len(),
            all_digits(v@.subrange(lo as int, k as int)),
        decreases hi - k,
    {
        let c = v[k];
        if !('0' <= c && c <= '9') {
            assert(v@.subrange(lo as int, hi as int)[k - lo] == c);
            return false;
        }
        assert forall|i: int| 0 <= i < k + 1 - lo implies is_digit(
            #[trigger] v@.subrange(lo as int, k + 1)[i],
        ) by {
            if i < k - lo {
                assert(v@.subrange(lo as int, k + 1)[i] == v@.subrange(lo as int, k as int)[i]);
            }
        }
        k = k + 1;
    }
    true
}

/// The value of the digits `v[lo..hi]`, capped at [`VALUE_CAP`].
pub fn digits_value_capped(v: &Vec<char>, lo: usize, hi: usize) -> (r: u64)
    requires
        lo <= hi <= v@.len(),
        all_digits(v@.subrange(lo as int, hi as int)),
    ensures
        r as nat == capped(digits_value(v@.subrange(lo as int, hi as int))),
{
    let mut acc: u64 = 0;
    let mut k = lo;
    assert(v@.subrange(lo as int, lo as int).len() == 0);
    while k < hi
        invariant
            lo <= k <= hi <= v@.len(),
            all_digits(v@.subrange(lo as int, hi as int)),
            acc as nat == capped(digits_value(v@.subrange(lo as int, k as int))),
        decreases hi - k,
    {
        let c = v[k];
        assert(v@.subrange(lo as int, hi as int)[k - lo] == c);
        let d = (c as u32 - '0' as u32) as u64;
        proof {
            lemma_digits_value_step(v@, lo as int, k as int);
            lemma_capped_step(digits_value(v@.subrange(lo as int, k as int)), d as nat);
        }
        let next = 10 * acc + d;
        acc = if next < VALUE_CAP {
            next
        } else {
            VALUE_CAP
        };
        k = k + 1;
    }
    acc
}

/// How many times `c` occurs in `s`.
pub open spec fn count_char(s: Seq<char>, c: char) -> nat
    decreases s.len(),
{
    if s.len() == 0 {
        0
    } else {
        count_char(s.drop_last(), c) + if s.last() == c {
            1nat
        } else {
            0nat
        }
    }
}

/// Occurrences in a concatenation are those of its two parts.
pub proof fn lemma_count_concat(a: Seq<char>, b: Seq<char>, c: char)
    ensures
        count_char(a + b, c) == count_char(a, c) + count_char(b, c),
    decreases b.len(),
{
    if b.len() == 0 {
        assert(a + b =~= a);
    } else {
        assert((a + b).drop_last() =~= a + b.drop_last());
        lemma_count_concat(a, b.drop_last(), c);
    }
}

} // verus!
