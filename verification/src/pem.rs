//! PEM framing of the public key.
//!
//! A keyed document is the public key's base64 body wrapped in the standard
//! `-----BEGIN PUBLIC KEY-----` / `-----END PUBLIC KEY-----` boundaries, the
//! body broken into lines of at most 64 characters.  The feed embeds the key
//! as an XML attribute value, so the framing and the line breaks must be
//! stripped; re-wrapping the stripped string reproduces the document, so the
//! stripping loses no key material.

use vstd::prelude::*;

verus! {

use crate::text::has_substring;
use vstd::string::StrSliceExecFns;
use vstd::string::StringExecFns;

/// Index of the first newline of `s`, or `s.len()` if there is none.
pub open spec fn first_nl(s: Seq<char>) -> int
    decreases s.len(),
{
    if s.len() == 0 {
        0
    } else if s[0] == '\n' {
        0
    } else {
        1 + first_nl(s.drop_first())
    }
}

/// A framing line: it starts with five dashes.
pub open spec fn is_framing(line: Seq<char>) -> bool {
    line.len() >= 5 && line[0] == '-' && line[1] == '-' && line[2] == '-' && line[3] == '-'
        && line[4] == '-'
}

/// The line content kept by stripping: a newline-terminated line loses one
/// trailing carriage return, an unterminated final line keeps it.
pub open spec fn trim_cr(raw: Seq<char>) -> Seq<char> {
    if raw.len() > 0 && raw[raw.len() - 1] == '\r' {
        raw.drop_last()
    } else {
        raw
    }
}

/// Splits `s` into lines, drops every framing line, and concatenates the
/// rest without their line breaks.
pub open spec fn strip_framing(s: Seq<char>) -> Seq<char>
    decreases s.len(),
    via strip_framing_decreases
{
    if s.len() == 0 {
        Seq::empty()
    } else {
        let k = first_nl(s);
        if k == s.len() {
            if is_framing(s) {
                Seq::empty()
            } else {
                s
            }
        } else {
            let line = trim_cr(s.take(k));
            let kept: Seq<char> = if is_framing(line) {
                Seq::empty()
            } else {
                line
            };
            kept + strip_framing(s.skip(k + 1))
        }
    }
}

/// The base64 body broken into newline-terminated lines of 64 characters,
/// the final line shorter when the length is no multiple of 64.
pub open spec fn wrap64(b: Seq<char>) -> Seq<char>
    decreases b.len(),
{
    if b.len() == 0 {
        Seq::empty()
    } else if b.len() <= 64 {
        b + "\n"@
    } else {
        b.take(64) + "\n"@ + wrap64(b.skip(64))
    }
}

/// The standard framing around a wrapped base64 body.
pub open spec fn pem_wrap(b: Seq<char>) -> Seq<char> {
    "-----BEGIN PUBLIC KEY-----\n"@ + wrap64(b) + "-----END PUBLIC KEY-----\n"@
}

/// Key material as it may stand in a body: no line breaks and no dashes.
pub open spec fn body_chars(b: Seq<char>) -> bool {
    forall|i: int| 0 <= i < b.len() ==> b[i] != '\n' && b[i] != '\r' && b[i] != '-'
}

/// A well-formed keyed document: standard framing around some body.
pub open spec fn pem_wellformed(d: Seq<char>) -> bool {
    exists|b: Seq<char>| body_chars(b) && d == #[trigger] pem_wrap(b)
}

#[via_fn]
proof fn strip_framing_decreases(s: Seq<char>) {
    lemma_first_nl_bounds(s);
}

proof fn lemma_first_nl_bounds(s: Seq<char>)
    ensures
        0 <= first_nl(s) <= s.len(),
        first_nl(s) < s.len() ==> s[first_nl(s)] == '\n',
        forall|j: int| 0 <= j < first_nl(s) ==> s[j] != '\n',
    decreases s.len(),
{
    if s.len() > 0 && s[0] != '\n' {
        lemma_first_nl_bounds(s.drop_first());
        assert(forall|j: int|
            0 <= j < first_nl(s.drop_first()) ==> s.drop_first()[j] != '\n');
        assert forall|j: int| 0 <= j < first_nl(s) implies s[j] != '\n' by {
            if j > 0 {
                assert(s.drop_first()[j - 1] == s[j]);
            }
        }
    }
}

/// The first newline is at `m` exactly when nothing before `m` is one.
proof fn lemma_first_nl_at(s: Seq<char>, m: int)
    requires
        0 <= m <= s.len(),
        forall|j: int| 0 <= j < m ==> s[j] != '\n',
        m < s.len() ==> s[m] == '\n',
    ensures
        first_nl(s) == m,
    decreases m,
{
    if m > 0 {
        assert forall|j: int| 0 <= j < m - 1 implies s.drop_first()[j] != '\n' by {
            assert(s.drop_first()[j] == s[j + 1]);
        }
        assert(m - 1 < s.drop_first().len() ==> s.drop_first()[m - 1] == s[m]);
        lemma_first_nl_at(s.drop_first(), m - 1);
    }
}

proof fn lemma_strip_footer()
    ensures
        strip_framing("-----END PUBLIC KEY-----\n"@) == Seq::<char>::empty(),
{
    let f = "-----END PUBLIC KEY-----\n"@;
    reveal_strlit("-----END PUBLIC KEY-----\n");
    assert(f.len() == 25);
    assert(forall|j: int| 0 <= j < 24 ==> f[j] != '\n');
    assert(f[24] == '\n');
    lemma_first_nl_at(f, 24);
    assert(is_framing(trim_cr(f.take(24))));
    assert(f.skip(25) =~= Seq::<char>::empty());
    assert(strip_framing(Seq::<char>::empty()) == Seq::<char>::empty());
    assert(strip_framing(f) =~= Seq::<char>::empty());
}

/// The first newline of a concatenation is that of its first part, when the
/// first part has one.
proof fn lemma_first_nl_concat(x: Seq<char>, y: Seq<char>)
    requires
        first_nl(x) < x.len(),
    ensures
        first_nl(x + y) == first_nl(x),
    decreases x.len(),
{
    lemma_first_nl_bounds(x);
    if x[0] == '\n' {
        assert((x + y)[0] == '\n');
    } else {
        lemma_first_nl_concat(x.drop_first(), y);
        assert((x + y).drop_first() =~= x.drop_first() + y);
        assert((x + y)[0] == x[0]);
    }
}

proof fn lemma_strip_wrap_tail(b: Seq<char>)
    requires
        body_chars(b),
    ensures
        strip_framing(wrap64(b) + "-----END PUBLIC KEY-----\n"@) == b,
    decreases b.len(),
{
    let f = "-----END PUBLIC KEY-----\n"@;
    reveal_strlit("-----END PUBLIC KEY-----\n");
    reveal_strlit("\n");
    if b.len() == 0 {
        assert(wrap64(b) + f =~= f);
        lemma_strip_footer();
    } else if b.len() <= 64 {
        let s = wrap64(b) + f;
        let m = b.len() as int;
        assert forall|j: int| 0 <= j < m implies s[j] != '\n' by {
            assert(s[j] == b[j]);
        }
        assert(s[m] == '\n');
        lemma_first_nl_at(s, m);
        assert(first_nl(s) < s.len());
        let raw = s.take(m);
        assert(raw =~= b);
        assert(trim_cr(raw) == b);
        assert(!is_framing(b));
        assert(s.skip(m + 1) =~= f);
        lemma_strip_footer();
        assert(strip_framing(s) =~= b);
    } else {
        let s = wrap64(b) + f;
        let m: int = 64;
        assert forall|j: int| 0 <= j < m implies s[j] != '\n' by {
            assert(s[j] == b.take(64)[j]);
            assert(b.take(64)[j] == b[j]);
        }
        assert(s[m] == (b.take(64) + "\n"@ + wrap64(b.skip(64)) + f)[64]);
        assert(s[m] == '\n');
        lemma_first_nl_at(s, m);
        let raw = s.take(m);
        assert(raw =~= b.take(64));
        assert(raw[raw.len() - 1] == b[63]);
        assert(trim_cr(raw) == raw);
        assert(!is_framing(raw));
        assert(s.skip(m + 1) =~= wrap64(b.skip(64)) + f);
        assert(body_chars(b.skip(64)));
        lemma_strip_wrap_tail(b.skip(64));
        assert(strip_framing(s) =~= b.take(64) + b.skip(64));
        assert(b.take(64) + b.skip(64) =~= b);
    }
}

/// Stripping the standard framing from a wrapped body recovers the body.
pub proof fn lemma_strip_of_wrap(b: Seq<char>)
    requires
        body_chars(b),
    ensures
        strip_framing(pem_wrap(b)) == b,
{
    let h = "-----BEGIN PUBLIC KEY-----\n"@;
    let f = "-----END PUBLIC KEY-----\n"@;
    reveal_strlit("-----BEGIN PUBLIC KEY-----\n");
    let t = wrap64(b) + f;
    let s = pem_wrap(b);
    assert(s =~= h + t);
    assert(h.len() == 27);
    assert(forall|j: int| 0 <= j < 26 ==> h[j] != '\n');
    assert(h[26] == '\n');
    lemma_first_nl_at(h, 26);
    lemma_first_nl_concat(h, t);
    assert(first_nl(s) == 26);
    let raw = s.take(26);
    assert(raw =~= h.take(26));
    assert(raw[25] == h[25]);
    assert(trim_cr(raw) == raw);
    assert(is_framing(raw));
    assert(s.skip(27) =~= t);
    lemma_strip_wrap_tail(b);
    assert(strip_framing(s) =~= b);
}

/// The round-trip law of keyed documents.  Stripping a well-formed document
/// leaves pure key material: no line breaks, no carriage returns and no
/// framing markers; and re-wrapping that material with the standard framing
/// reproduces the document byte for byte.
pub proof fn lemma_pem_round_trip(d: Seq<char>)
    requires
        pem_wellformed(d),
    ensures
        body_chars(strip_framing(d)),
        !has_substring(strip_framing(d), "-----"@),
        pem_wrap(strip_framing(d)) == d,
{
    let b = choose|b: Seq<char>| body_chars(b) && d == #[trigger] pem_wrap(b);
    lemma_strip_of_wrap(b);
    reveal_strlit("-----");
    if has_substring(strip_framing(d), "-----"@) {
        let i = choose|i: int|
            0 <= i && i + 5 <= b.len() && #[trigger] b.subrange(i, i + 5) == "-----"@;
        assert(b.subrange(i, i + 5)[0] == b[i]);
        assert(b[i] == '-');
    }
}

fn is_framing_line(line: &str) -> (r: bool)
    ensures
        r == is_framing(line@),
{
    if line.unicode_len() < 5 {
        return false;
    }
    line.get_char(0) == '-' && line.get_char(1) == '-' && line.get_char(2) == '-'
        && line.get_char(3) == '-' && line.get_char(4) == '-'
}

/// Removes the header and footer from a PEM-encoded key, as well as any
/// line breaks.
pub fn pem_to_base64(pem_string: String) -> (r: String)
    ensures
        r@ == strip_framing(pem_string@),
{
    let s = pem_string.as_str();
    let n = s.unicode_len();
    let mut out = String::new();
    let mut i: usize = 0;
    proof {
        assert(s@.skip(0) =~= s@);
        assert(out@ + strip_framing(s@) =~= strip_framing(s@));
    }
    while i < n
        invariant
            i <= n,
            n == s@.len(),
            out@ + strip_framing(s@.skip(i as int)) == strip_framing(s@),
        decreases n - i,
    {
        let ghost t = s@.skip(i as int);
        let mut k: usize = i;
        while k < n && s.get_char(k) != '\n'
            invariant
                i <= k <= n,
                n == s@.len(),
                forall|j: int| i <= j < k ==> s@[j] != '\n',
            decreases n - k,
        {
            k += 1;
        }
        proof {
            assert forall|j: int| 0 <= j < k - i implies t[j] != '\n' by {
                assert(t[j] == s@[j + i]);
            }
            assert(k < n ==> t[k - i] == s@[k as int]);
            lemma_first_nl_at(t, k - i);
        }
        if k == n {
            let line = s.substring_char(i, n);
            proof {
                assert(line@ =~= t);
            }
            if !is_framing_line(line) {
                out.append(line);
            }
            proof {
                assert(s@.skip(n as int) =~= Seq::<char>::empty());
                assert(strip_framing(Seq::<char>::empty()) == Seq::<char>::empty());
                assert(out@ + strip_framing(s@.skip(n as int)) =~= strip_framing(s@));
            }
            i = n;
        } else {
            let mut end = k;
            if end > i && s.get_char(end - 1) == '\r' {
                end = end - 1;
            }
            let line = s.substring_char(i, end);
            proof {
                assert(t.take(k - i) =~= s@.subrange(i as int, k as int));
                assert(line@ =~= trim_cr(t.take(k - i)));
            }
            if !is_framing_line(line) {
                out.append(line);
            }
            proof {
                assert(t.skip(k - i + 1) =~= s@.skip(k + 1));
                assert(out@ + strip_framing(s@.skip(k + 1)) =~= strip_framing(s@));
            }
            i = k + 1;
        }
    }
    proof {
        assert(s@.skip(n as int) =~= Seq::<char>::empty());
        assert(out@ =~= strip_framing(s@));
    }
    out
}

/// Re-wraps stripped key material with the standard framing, the body
/// broken into newline-terminated lines of 64 characters.
pub fn base64_to_pem(body: &str) -> (r: String)
    ensures
        r@ == pem_wrap(body@),
{
    let mut out = "-----BEGIN PUBLIC KEY-----\n".to_owned();
    let n = body.unicode_len();
    let mut i: usize = 0;
    proof {
        assert(body@.skip(0) =~= body@);
        assert(out@ + wrap64(body@) =~= "-----BEGIN PUBLIC KEY-----\n"@ + wrap64(body@));
    }
    while i < n
        invariant
            i <= n,
            n == body@.len(),
            out@ + wrap64(body@.skip(i as int)) == "-----BEGIN PUBLIC KEY-----\n"@ + wrap64(
                body@,
            ),
        decreases n - i,
    {
        let ghost t = body@.skip(i as int);
        let end = if n - i <= 64 {
            n
        } else {
            i + 64
        };
        let chunk = body.substring_char(i, end);
        out.append(chunk);
        out.append("\n");
        proof {
            if n - i <= 64 {
                assert(chunk@ =~= t);
                assert(body@.skip(n as int) =~= Seq::<char>::empty());
                assert(out@ + wrap64(body@.skip(end as int)) =~= out@);
            } else {
                assert(chunk@ =~= t.take(64));
                assert(t.skip(64) =~= body@.skip(i + 64));
            }
            assert(out@ + wrap64(body@.skip(end as int)) =~= "-----BEGIN PUBLIC KEY-----\n"@
                + wrap64(body@));
        }
        i = end;
    }
    proof {
        assert(body@.skip(n as int) =~= Seq::<char>::empty());
    }
    out.append("-----END PUBLIC KEY-----\n");
    proof {
        assert(out@ =~= pem_wrap(body@));
    }
    out
}

fn body_chars_exec(b: &str) -> (r: bool)
    ensures
        r == body_chars(b@),
{
    let n = b.unicode_len();
    let mut i: usize = 0;
    while i < n
        invariant
            i <= n,
            n == b@.len(),
            forall|j: int| 0 <= j < i ==> b@[j] != '\n' && b@[j] != '\r' && b@[j] != '-',
        decreases n - i,
    {
        let c = b.get_char(i);
        if c == '\n' || c == '\r' || c == '-' {
            return false;
        }
        i += 1;
    }
    true
}

/// Decides whether `s` is a well-formed keyed document: pure key material
/// wrapped in the standard framing.
pub fn is_wellformed_pem(s: &str) -> (r: bool)
    ensures
        r == pem_wellformed(s@),
{
    let b = pem_to_base64(s.to_owned());
    if !body_chars_exec(b.as_str()) {
        proof {
            if pem_wellformed(s@) {
                lemma_pem_round_trip(s@);
            }
        }
        return false;
    }
    let rebuilt = base64_to_pem(b.as_str());
    let eq = crate::text::str_eq(rebuilt.as_str(), s);
    proof {
        if eq {
            assert(pem_wrap(b@) == s@);
            assert(pem_wellformed(s@));
        } else if pem_wellformed(s@) {
            lemma_pem_round_trip(s@);
        }
    }
    eq
}

} // verus!
