//! Small string utilities shared by the rendering and validation modules:
//! character-level string equality, decimal numerals, and a substring
//! predicate used to state what a rendered page must contain.

use vstd::prelude::*;

verus! {

use vstd::string::StrSliceExecFns;
use vstd::string::StringExecFns;

/// The decimal digit character for `d` (meaningful for `d < 10`).
pub open spec fn digit_char(d: nat) -> char {
    if d == 0 {
        '0'
    } else if d == 1 {
        '1'
    } else if d == 2 {
        '2'
    } else if d == 3 {
        '3'
    } else if d == 4 {
        '4'
    } else if d == 5 {
        '5'
    } else if d == 6 {
        '6'
    } else if d == 7 {
        '7'
    } else if d == 8 {
        '8'
    } else {
        '9'
    }
}

/// The decimal numeral of `n`, most significant digit first, no leading
/// zeros (except for `n == 0` itself).
pub open spec fn dec_str(n: nat) -> Seq<char>
    decreases n,
{
    if n < 10 {
        seq![digit_char(n)]
    } else {
        dec_str(n / 10) + seq![digit_char(n % 10)]
    }
}

/// `sub` occurs contiguously somewhere inside `s`.
pub open spec fn has_substring(s: Seq<char>, sub: Seq<char>) -> bool {
    exists|i: int|
        0 <= i && i + sub.len() <= s.len() && #[trigger] s.subrange(i, i + sub.len()) == sub
}

/// The middle part of a three-way concatenation is a substring of the whole.
pub proof fn lemma_concat_has_substring(a: Seq<char>, b: Seq<char>, c: Seq<char>)
    ensures
        has_substring(a + b + c, b),
{
    let s = a + b + c;
    let i = a.len() as int;
    assert(s.subrange(i, i + b.len()) =~= b);
}

/// The second part of a two-way concatenation is a substring of the whole.
pub proof fn lemma_concat_has_suffix(a: Seq<char>, b: Seq<char>)
    ensures
        has_substring(a + b, b),
{
    let s = a + b;
    let i = a.len() as int;
    assert(s.subrange(i, i + b.len()) =~= b);
}

/// A substring of the middle part is a substring of the whole.
pub proof fn lemma_has_substring_embed(a: Seq<char>, b: Seq<char>, c: Seq<char>, x: Seq<char>)
    requires
        has_substring(b, x),
    ensures
        has_substring(a + b + c, x),
{
    let j = choose|j: int|
        0 <= j && j + x.len() <= b.len() && #[trigger] b.subrange(j, j + x.len()) == x;
    let s = a + b + c;
    let i = a.len() + j;
    assert(s.subrange(i, i + x.len()) =~= b.subrange(j, j + x.len()));
}

/// Substring containment is transitive.
pub proof fn lemma_has_substring_trans(s: Seq<char>, m: Seq<char>, x: Seq<char>)
    requires
        has_substring(s, m),
        has_substring(m, x),
    ensures
        has_substring(s, x),
{
    let i = choose|i: int|
        0 <= i && i + m.len() <= s.len() && #[trigger] s.subrange(i, i + m.len()) == m;
    let j = choose|j: int|
        0 <= j && j + x.len() <= m.len() && #[trigger] m.subrange(j, j + x.len()) == x;
    assert(s.subrange(i + j, i + j + x.len()) =~= m.subrange(j, j + x.len()));
}

/// Character-by-character string equality.
pub fn str_eq(a: &str, b: &str) -> (r: bool)
    ensures
        r == (a@ == b@),
{
    let an = a.unicode_len();
    let bn = b.unicode_len();
    if an != bn {
        return false;
    }
    let mut i: usize = 0;
    while i < an
        invariant
            i <= an,
            an == a@.len(),
            an == b@.len(),
            forall|j: int| 0 <= j < i ==> a@[j] == b@[j],
        decreases an - i,
    {
        if a.get_char(i) != b.get_char(i) {
            return false;
        }
        i += 1;
    }
    proof {
        assert(a@ =~= b@);
    }
    true
}

fn digit_to_str(d: u16) -> (r: &'static str)
    requires
        d < 10,
    ensures
        r@ == seq![digit_char(d as nat)],
{
    if d == 0 {
        proof { reveal_strlit("0"); }
        "0"
    } else if d == 1 {
        proof { reveal_strlit("1"); }
        "1"
    } else if d == 2 {
        proof { reveal_strlit("2"); }
        "2"
    } else if d == 3 {
        proof { reveal_strlit("3"); }
        "3"
    } else if d == 4 {
        proof { reveal_strlit("4"); }
        "4"
    } else if d == 5 {
        proof { reveal_strlit("5"); }
        "5"
    } else if d == 6 {
        proof { reveal_strlit("6"); }
        "6"
    } else if d == 7 {
        proof { reveal_strlit("7"); }
        "7"
    } else if d == 8 {
        proof { reveal_strlit("8"); }
        "8"
    } else {
        proof { reveal_strlit("9"); }
        "9"
    }
}

/// Renders `n` as its decimal numeral.
pub fn u16_to_dec(n: u16) -> (r: String)
    ensures
        r@ == dec_str(n as nat),
    decreases n,
{
    if n < 10 {
        let r = digit_to_str(n).to_owned();
        proof {
            assert(r@ =~= dec_str(n as nat));
        }
        r
    } else {
        let mut s = u16_to_dec(n / 10);
        s.append(digit_to_str(n % 10));
        proof {
            assert(s@ =~= dec_str(n as nat));
        }
        s
    }
}

} // verus!
