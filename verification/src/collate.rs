//! How stored texts are compared: the order of texts, and the patterns of
//! `LIKE`.
use vstd::prelude::*;

use crate::text::{chars_of, lower_char, to_lower_char};

verus! {

/// The order of texts by their characters: the order of their UTF-8 bytes.
pub open spec fn at_most(a: Seq<char>, b: Seq<char>) -> bool
    decreases a.len(),
{
    if a.len() == 0 {
        true
    } else if b.len() == 0 {
        false
    } else if a[0] == b[0] {
        at_most(a.skip(1), b.skip(1))
    } else {
        a[0] < b[0]
    }
}

/// Strictly before in that order.
pub open spec fn below(a: Seq<char>, b: Seq<char>) -> bool {
    !at_most(b, a)
}

pub fn text_at_most(a: &str, b: &str) -> (r: bool)
    ensures
        r == at_most(a@, b@),
{
    let x = chars_of(a);
    let y = chars_of(b);
    let mut i: usize = 0;
    assert(a@.skip(0) =~= a@);
    assert(b@.skip(0) =~= b@);
    while i < x.len()
        invariant
            i <= x@.len(),
            i <= y@.len(),
            x@ == a@,
            y@ == b@,
            at_most(a@, b@) == at_most(a@.skip(i as int), b@.skip(i as int)),
        decreases x@.len() - i,
    {
        if i == y.len() {
            return false;
        }
        if x[i] != y[i] {
            return x[i] < y[i];
        }
        assert(a@.skip(i as int).skip(1) =~= a@.skip(i + 1));
        assert(b@.skip(i as int).skip(1) =~= b@.skip(i + 1));
        i = i + 1;
    }
    true
}

/// The order is total: of two texts, one is at most the other.
pub proof fn law_order_total(a: Seq<char>, b: Seq<char>)
    ensures
        at_most(a, b) || at_most(b, a),
    decreases a.len(),
{
    if a.len() > 0 && b.len() > 0 && a[0] == b[0] {
        law_order_total(a.skip(1), b.skip(1));
    }
}

/// The order is transitive.
pub proof fn law_order_transitive(a: Seq<char>, b: Seq<char>, c: Seq<char>)
    requires
        at_most(a, b),
        at_most(b, c),
    ensures
        at_most(a, c),
    decreases a.len(),
{
    if a.len() > 0 && b.len() > 0 && c.len() > 0 && a[0] == b[0] && b[0] == c[0] {
        law_order_transitive(a.skip(1), b.skip(1), c.skip(1));
    }
}

/// Two texts of which each is at most the other are the same text.
pub proof fn law_order_antisymmetric(a: Seq<char>, b: Seq<char>)
    requires
        at_most(a, b),
        at_most(b, a),
    ensures
        a == b,
    decreases a.len(),
{
    if a.len() > 0 && b.len() > 0 {
        law_order_antisymmetric(a.skip(1), b.skip(1));
        assert forall|i: int| 0 <= i < a.len() implies a[i] == b[i] by {
            if i > 0 {
                assert(a[i] == a.skip(1)[i - 1]);
                assert(b[i] == b.skip(1)[i - 1]);
            }
        }
        assert(a.len() == a.skip(1).len() + 1);
        assert(b.len() == b.skip(1).len() + 1);
    }
    assert(a =~= b);
}

/// A character as `LIKE` reads it: for the last two code points of the basic
/// plane, which are no characters, it reads the replacement character.
pub open spec fn read_char(c: char) -> char {
    if c == '\u{FFFE}' || c == '\u{FFFF}' {
        '\u{FFFD}'
    } else {
        c
    }
}

/// A text as `LIKE` reads it: up to its first zero character.
pub open spec fn read_text(s: Seq<char>) -> Seq<char>
    decreases s.len(),
{
    if s.len() == 0 || s[0] == '\0' {
        Seq::empty()
    } else {
        seq![read_char(s[0])] + read_text(s.skip(1))
    }
}

/// The characters match those of the pattern: a percent sign stands for any
/// characters, an underscore for any one, and any other character for itself,
/// with no regard to the case of ASCII letters.
pub open spec fn like_chars(p: Seq<char>, s: Seq<char>) -> bool
    decreases p.len(), s.len(),
{
    if p.len() == 0 {
        s.len() == 0
    } else if p[0] == '%' {
        like_chars(p.skip(1), s) || (s.len() > 0 && like_chars(p, s.skip(1)))
    } else {
        &&& s.len() > 0
        &&& p[0] == '_' || lower_char(p[0]) == lower_char(s[0])
        &&& like_chars(p.skip(1), s.skip(1))
    }
}

/// The text matches the pattern, each as `LIKE` reads it.
pub open spec fn like(pattern: Seq<char>, text: Seq<char>) -> bool {
    like_chars(read_text(pattern), read_text(text))
}

/// The characters of a text as `LIKE` reads it.
fn chars_read(text: &str) -> (r: Vec<char>)
    ensures
        r@ == read_text(text@),
{
    let chars = chars_of(text);
    let mut out: Vec<char> = Vec::new();
    let mut i: usize = 0;
    assert(text@.skip(0) =~= text@);
    assert(out@ + read_text(text@) =~= read_text(text@));
    while i < chars.len() && chars[i] != '\0'
        invariant
            i <= chars@.len(),
            chars@ == text@,
            out@ + read_text(text@.skip(i as int)) == read_text(text@),
        decreases chars@.len() - i,
    {
        let c = chars[i];
        let ghost rest = text@.skip(i as int);
        let ghost before = out@;
        out.push(
            if c == '\u{FFFE}' || c == '\u{FFFF}' {
                '\u{FFFD}'
            } else {
                c
            },
        );
        assert(rest.skip(1) =~= text@.skip(i + 1));
        assert(out@ + read_text(rest.skip(1)) =~= before + read_text(rest));
        i = i + 1;
    }
    assert(out@ + read_text(text@.skip(i as int)) =~= out@);
    out
}

/// Whether the text matches the pattern.
pub fn matches_like(pattern: &str, text: &str) -> (r: bool)
    ensures
        r == like(pattern@, text@),
{
    let p = chars_read(pattern);
    let s = chars_read(text);
    let ghost pv = p@;
    let ghost sv = s@;
    let n = s.len();
    // row[j] tells whether what is left of the text from j on matches what is
    // left of the pattern from i on.
    let mut row: Vec<bool> = Vec::new();
    let mut j: usize = 0;
    while j < n
        invariant
            j <= n,
            row@.len() == j,
            forall|k: int| 0 <= k < j ==> row@[k] == false,
        decreases n - j,
    {
        row.push(false);
        j = j + 1;
    }
    row.push(true);
    let mut i: usize = p.len();
    assert forall|k: int| 0 <= k <= n implies row@[k] == like_chars(
        pv.skip(i as int),
        #[trigger] sv.skip(k),
    ) by {}
    while i > 0
        invariant
            i <= p@.len(),
            p@ == pv,
            s@ == sv,
            n == sv.len(),
            row@.len() == n + 1,
            forall|k: int| 0 <= k <= n ==> row@[k] == like_chars(pv.skip(i as int), #[trigger] sv.skip(k)),
        decreases i,
    {
        let c = p[i - 1];
        let ghost rest = pv.skip(i - 1);
        assert(rest.skip(1) =~= pv.skip(i as int));
        assert(rest[0] == c);
        let mut next: Vec<bool> = Vec::new();
        let mut k: usize = row.len();
        // next[k] is filled from the end of the text to its front.
        while next.len() < n + 1
            invariant
                next@.len() + k == n + 1,
                0 < i <= p@.len(),
                p@ == pv,
                s@ == sv,
                n == sv.len(),
                n < usize::MAX,
                row@.len() == n + 1,
                rest == pv.skip(i - 1),
                rest.len() > 0,
                rest.skip(1) == pv.skip(i as int),
                rest[0] == c,
                forall|m: int|
                    0 <= m <= n ==> row@[m] == like_chars(pv.skip(i as int), #[trigger] sv.skip(m)),
                forall|m: int|
                    k <= m <= n ==> next@[n - m] == like_chars(rest, #[trigger] sv.skip(m)),
            decreases k,
        {
            let at: usize = k - 1;
            let ghost here = sv.skip(at as int);
            assert(row@[at as int] == like_chars(rest.skip(1), sv.skip(at as int)));
            let hit = if c == '%' {
                if at < n {
                    assert(here.skip(1) =~= sv.skip(at + 1));
                    assert(next@[n - (at + 1)] == like_chars(rest, sv.skip(at + 1)));
                    row[at] || next[n - at - 1]
                } else {
                    row[at]
                }
            } else if at < n {
                assert(here.skip(1) =~= sv.skip(at + 1));
                assert(row@[at + 1] == like_chars(rest.skip(1), sv.skip(at + 1)));
                (c == '_' || to_lower_char(c) == to_lower_char(s[at])) && row[at + 1]
            } else {
                false
            };
            assert(hit == like_chars(rest, here));
            next.push(hit);
            k = at;
        }
        let mut turned: Vec<bool> = Vec::new();
        let mut m: usize = 0;
        while m < n + 1
            invariant
                m <= n + 1,
                n < usize::MAX,
                next@.len() == n + 1,
                turned@.len() == m,
                forall|q: int| 0 <= q < m ==> turned@[q] == next@[n - q],
            decreases n + 1 - m,
        {
            turned.push(next[n - m]);
            m = m + 1;
        }
        row = turned;
        i = i - 1;
    }
    assert(pv.skip(0) =~= pv);
    assert(sv.skip(0) =~= sv);
    row[0]
}

} // verus!
