//! What cutting and joining texts keeps.
use vstd::prelude::*;

use crate::collate::{at_most, below};
use crate::laws::found::{lemma_first_at, lemma_first_none};
use crate::rows::{find, lemma_find, lemma_find_is};
use crate::text::{
    after_prefix, begins, cut_at_space, digits_of, equal_to, first_word, head, holds, is_digit,
    is_space, lower, lower_char, nonblank, split, trim_end, trim_start, trimmed, upper, value_under,
};

verus! {

/// Nothing but white space.
pub open spec fn blank(s: Seq<char>) -> bool {
    forall|i: int| 0 <= i < s.len() ==> is_space(#[trigger] s[i])
}

/// Something that neither begins nor ends with white space.
pub open spec fn solid(s: Seq<char>) -> bool {
    s.len() > 0 && !is_space(s[0]) && !is_space(s.last())
}

/// No white space at all.
pub open spec fn spaceless(s: Seq<char>) -> bool {
    forall|i: int| 0 <= i < s.len() ==> !is_space(#[trigger] s[i])
}

proof fn lemma_trim_start(lead: Seq<char>, rest: Seq<char>)
    requires
        blank(lead),
        rest.len() > 0 ==> !is_space(rest[0]),
    ensures
        trim_start(lead + rest) == rest,
    decreases lead.len(),
{
    if lead.len() > 0 {
        assert((lead + rest)[0] == lead[0]);
        assert((lead + rest).skip(1) =~= lead.skip(1) + rest);
        assert forall|i: int| 0 <= i < lead.skip(1).len() implies is_space(
            #[trigger] lead.skip(1)[i],
        ) by {
            assert(lead.skip(1)[i] == lead[i + 1]);
        }
        lemma_trim_start(lead.skip(1), rest);
    } else {
        assert(lead + rest =~= rest);
    }
}

proof fn lemma_trim_end(core: Seq<char>, tail: Seq<char>)
    requires
        blank(tail),
        core.len() > 0 ==> !is_space(core.last()),
    ensures
        trim_end(core + tail) == core,
    decreases tail.len(),
{
    if tail.len() > 0 {
        assert((core + tail).last() == tail.last());
        assert((core + tail).drop_last() =~= core + tail.drop_last());
        assert forall|i: int| 0 <= i < tail.drop_last().len() implies is_space(
            #[trigger] tail.drop_last()[i],
        ) by {
            assert(tail.drop_last()[i] == tail[i]);
        }
        lemma_trim_end(core, tail.drop_last());
    } else {
        assert(core + tail =~= core);
    }
}

/// Trimming takes the white space off both ends, and changes nothing else: of
/// every text that holds something, exactly that is left.
pub proof fn law_trimming_keeps_the_core(lead: Seq<char>, core: Seq<char>, tail: Seq<char>)
    requires
        blank(lead),
        blank(tail),
        solid(core),
    ensures
        trimmed(lead + core + tail) == core,
        nonblank(Some(lead + core + tail)) == Some(core),
{
    assert(lead + core + tail =~= lead + (core + tail));
    lemma_trim_start(lead, core + tail);
    lemma_trim_end(core, tail);
}

/// Of white space alone nothing is left.
pub proof fn law_trimming_leaves_no_blank(s: Seq<char>)
    requires
        blank(s),
    ensures
        trimmed(s).len() == 0,
        nonblank(Some(s)) is None,
        nonblank(None) is None,
{
    assert(s + Seq::<char>::empty() =~= s);
    lemma_trim_start(s, Seq::empty());
}

/// Every text is white space, or a core between two ends of white space.
pub proof fn lemma_cored(s: Seq<char>) -> (r: (Seq<char>, Seq<char>, Seq<char>))
    ensures
        s == r.0 + r.1 + r.2,
        blank(r.0),
        blank(r.2),
        solid(r.1) || r.1.len() == 0,
    decreases s.len(),
{
    if s.len() == 0 {
        (s, s, s)
    } else if is_space(s[0]) {
        let (a, b, c) = lemma_cored(s.skip(1));
        let lead = seq![s[0]] + a;
        assert(s =~= seq![s[0]] + s.skip(1));
        assert(s =~= lead + b + c);
        assert forall|i: int| 0 <= i < lead.len() implies is_space(#[trigger] lead[i]) by {
            if i > 0 {
                assert(lead[i] == a[i - 1]);
            }
        }
        (lead, b, c)
    } else if is_space(s.last()) {
        let (a, b, c) = lemma_cored(s.drop_last());
        let tail = c.push(s.last());
        assert(s =~= s.drop_last().push(s.last()));
        assert(s =~= a + b + tail);
        assert forall|i: int| 0 <= i < tail.len() implies is_space(#[trigger] tail[i]) by {
            if i < c.len() {
                assert(tail[i] == c[i]);
            }
        }
        (a, b, tail)
    } else {
        let none = Seq::<char>::empty();
        assert(s =~= none + s + none);
        (none, s, none)
    }
}

/// A trimmed text is a piece of the text, between two pieces of white space.
pub proof fn law_trimmed_is_a_piece(s: Seq<char>) -> (r: (Seq<char>, Seq<char>))
    ensures
        s == r.0 + trimmed(s) + r.1,
        blank(r.0),
        blank(r.1),
        trimmed(s).len() > 0 ==> solid(trimmed(s)),
{
    let (a, b, c) = lemma_cored(s);
    if b.len() > 0 {
        law_trimming_keeps_the_core(a, b, c);
        (a, c)
    } else {
        assert forall|i: int| 0 <= i < s.len() implies is_space(#[trigger] s[i]) by {
            if i < a.len() {
                assert(s[i] == a[i]);
            } else {
                assert(s[i] == c[i - a.len()]);
            }
        }
        law_trimming_leaves_no_blank(s);
        assert(s =~= s + trimmed(s) + Seq::<char>::empty());
        (s, Seq::empty())
    }
}

/// A text begins with another exactly when something may follow that makes it
/// up, and that is what stands behind it.
pub proof fn law_what_follows_a_prefix(p: Seq<char>, rest: Seq<char>, s: Seq<char>)
    ensures
        begins(p + rest, p),
        after_prefix(p + rest, p) == Some(rest),
        after_prefix(s, p) matches Some(r) ==> s == p + r,
        begins(s, p) ==> s == p + s.skip(p.len() as int),
        after_prefix(s, p) is None ==> !begins(s, p),
{
    assert((p + rest).take(p.len() as int) =~= p);
    assert((p + rest).skip(p.len() as int) =~= rest);
    if begins(s, p) {
        assert(s =~= p + s.skip(p.len() as int));
    }
}

/// The first word of a text is what stands before the first white space behind
/// its beginning.
pub proof fn law_first_word(lead: Seq<char>, word: Seq<char>, rest: Seq<char>)
    requires
        blank(lead),
        spaceless(word),
        word.len() > 0,
        rest.len() > 0 ==> is_space(rest[0]),
    ensures
        first_word(lead + word + rest) == Some(word),
{
    let s = lead + word + rest;
    assert(s =~= lead + (word + rest));
    assert((word + rest)[0] == word[0]);
    lemma_trim_start(lead, word + rest);
    let t = word + rest;
    let p = |c: char| is_space(c);
    assert forall|j: int| 0 <= j < word.len() implies !p(#[trigger] t[j]) by {
        assert(t[j] == word[j]);
    }
    lemma_find_is(t, p, word.len() as int);
    assert(t.take(word.len() as int) =~= word);
}

/// A text is cut at its first white space.
pub proof fn law_cut_at_space(word: Seq<char>, gap: char, rest: Seq<char>)
    requires
        spaceless(word),
        is_space(gap),
    ensures
        cut_at_space(word + seq![gap] + rest) == Some((word, rest)),
        cut_at_space(word) is None,
{
    let s = word + seq![gap] + rest;
    let p = |c: char| is_space(c);
    assert forall|j: int| 0 <= j < word.len() implies !p(#[trigger] s[j]) by {
        assert(s[j] == word[j]);
    }
    lemma_find_is(s, p, word.len() as int);
    assert(s.take(word.len() as int) =~= word);
    assert(s.skip(word.len() as int + 1) =~= rest);
    assert forall|j: int| 0 <= j < word.len() implies !p(#[trigger] word[j]) by {}
    lemma_find_is(word, p, word.len() as int);
}

/// The pieces of a text, joined again.
pub open spec fn joined(pieces: Seq<Seq<char>>, sep: char) -> Seq<char>
    decreases pieces.len(),
{
    if pieces.len() == 0 {
        Seq::empty()
    } else if pieces.len() == 1 {
        pieces[0]
    } else {
        pieces[0] + seq![sep] + joined(pieces.skip(1), sep)
    }
}

/// Splitting loses nothing: the pieces, none of which holds the separator, make
/// up the text when they are joined by it.
pub proof fn law_split_pieces_join(s: Seq<char>, sep: char)
    ensures
        split(s, sep).len() > 0,
        joined(split(s, sep), sep) == s,
        forall|i: int, j: int|
            0 <= i < split(s, sep).len() && 0 <= j < split(s, sep)[i].len() ==> (
            #[trigger] split(s, sep)[i][j]) != sep,
    decreases s.len(),
{
    let p = equal_to(sep);
    let i = find(s, p);
    lemma_find(s, p);
    if i < s.len() {
        let rest = s.skip(i + 1);
        law_split_pieces_join(rest, sep);
        let pieces = split(s, sep);
        assert(pieces.skip(1) =~= split(rest, sep));
        assert(pieces[0] =~= s.take(i));
        assert(s =~= s.take(i) + seq![sep] + rest);
        assert forall|a: int, b: int|
            0 <= a < pieces.len() && 0 <= b < pieces[a].len() implies (#[trigger] pieces[a][b])
            != sep by {
            if a == 0 {
                assert(!p(s[b]));
            } else {
                assert(pieces[a] == split(rest, sep)[a - 1]);
            }
        }
    } else {
        assert forall|b: int| 0 <= b < s.len() implies (#[trigger] s[b]) != sep by {
            assert(!p(s[b]));
        }
    }
}

/// Splitting undoes joining.
pub proof fn law_joined_pieces_split(pieces: Seq<Seq<char>>, sep: char)
    requires
        pieces.len() > 0,
        forall|i: int, j: int|
            0 <= i < pieces.len() && 0 <= j < pieces[i].len() ==> (#[trigger] pieces[i][j]) != sep,
    ensures
        split(joined(pieces, sep), sep) == pieces,
    decreases pieces.len(),
{
    let p = equal_to(sep);
    let s = joined(pieces, sep);
    let n = pieces[0].len() as int;
    if pieces.len() == 1 {
        assert forall|j: int| 0 <= j < n implies !p(#[trigger] s[j]) by {
            assert(pieces[0][j] != sep);
        }
        lemma_find_is(s, p, n);
        assert(seq![s] =~= pieces);
    } else {
        let rest = pieces.skip(1);
        assert forall|i: int, j: int| 0 <= i < rest.len() && 0 <= j < rest[i].len() implies (
        #[trigger] rest[i][j]) != sep by {
            assert(pieces[i + 1][j] != sep);
        }
        law_joined_pieces_split(rest, sep);
        assert forall|j: int| 0 <= j < n implies !p(#[trigger] s[j]) by {
            assert(s[j] == pieces[0][j]);
        }
        lemma_find_is(s, p, n);
        assert(s.take(n) =~= pieces[0]);
        assert(s.skip(n + 1) =~= joined(rest, sep));
        assert(seq![pieces[0]] + rest =~= pieces);
    }
}

/// Folding to one case keeps everything but the case of ASCII letters.
pub proof fn law_case_folding(s: Seq<char>, i: int)
    requires
        0 <= i < s.len(),
    ensures
        lower(s).len() == s.len(),
        upper(s).len() == s.len(),
        !('A' <= s[i] && s[i] <= 'Z') ==> lower(s)[i] == s[i],
        'A' <= s[i] && s[i] <= 'Z' ==> lower(s)[i] as int == s[i] as int + 32,
        !('a' <= s[i] && s[i] <= 'z') ==> upper(s)[i] == s[i],
        'a' <= s[i] && s[i] <= 'z' ==> upper(s)[i] as int == s[i] as int - 32,
        lower(lower(s)) == lower(s),
{
    assert forall|j: int| 0 <= j < s.len() implies lower(lower(s))[j] == lower(s)[j] by {
        assert(lower(s)[j] == lower_char(s[j]));
    }
    assert(lower(lower(s)) =~= lower(s));
}

/// The digits of a text are the digits in it and nothing else.
pub proof fn law_digits_are_kept(a: Seq<char>, c: char, s: Seq<char>)
    ensures
        digits_of(a.push(c)) == if '0' <= c && c <= '9' {
            digits_of(a).push(c)
        } else {
            digits_of(a)
        },
        digits_of(Seq::empty()) == Seq::<char>::empty(),
        (forall|i: int| 0 <= i < s.len() ==> '0' <= (#[trigger] s[i]) && s[i] <= '9') ==> digits_of(
            s,
        ) == s,
{
    reveal(Seq::filter);
    assert(a.push(c).drop_last() =~= a);
    if forall|i: int| 0 <= i < s.len() ==> '0' <= (#[trigger] s[i]) && s[i] <= '9' {
        crate::db::laws::lemma_filter_all(s, |c: char| is_digit(c));
    }
}

/// The head of a text is its beginning, cut only where the text is longer.
pub proof fn law_head_is_the_beginning(s: Seq<char>, n: int, i: int)
    requires
        n >= 0,
    ensures
        head(s, n).len() == if s.len() <= n {
            s.len() as int
        } else {
            n
        },
        0 <= i < head(s, n).len() ==> head(s, n)[i] == s[i],
{
}

/// What is read under a name is the first value given under that very name.
pub proof fn law_value_is_the_first(
    pairs: Seq<(Seq<char>, Seq<char>)>,
    key: Seq<char>,
    i: int,
)
    ensures
        0 <= i < pairs.len() && pairs[i].0 == key && (forall|j: int|
            0 <= j < i ==> (#[trigger] pairs[j]).0 != key) ==> value_under(pairs, key) == Some(
            pairs[i].1,
        ),
        (forall|j: int| 0 <= j < pairs.len() ==> (#[trigger] pairs[j]).0 != key) ==> value_under(
            pairs,
            key,
        ) is None,
{
    let p = crate::text::named(key);
    if 0 <= i < pairs.len() && pairs[i].0 == key && (forall|j: int|
        0 <= j < i ==> (#[trigger] pairs[j]).0 != key) {
        lemma_first_at(pairs, p, i);
    }
    if forall|j: int| 0 <= j < pairs.len() ==> (#[trigger] pairs[j]).0 != key {
        lemma_first_none(pairs, p);
    }
}

/// Texts are ordered by the first character in which they differ, and before what
/// they are the beginning of.
pub proof fn law_order_is_that_of_the_first_difference(
    same: Seq<char>,
    a: Seq<char>,
    b: Seq<char>,
)
    ensures
        at_most(same, same + b),
        a.len() > 0 ==> below(same, same + a),
        a.len() > 0 && b.len() > 0 && a[0] < b[0] ==> below(same + a, same + b) && at_most(
            same + a,
            same + b,
        ) && !at_most(same + b, same + a),
    decreases same.len(),
{
    if same.len() == 0 {
        assert(same + a =~= a);
        assert(same + b =~= b);
    } else {
        let less = same.skip(1);
        law_order_is_that_of_the_first_difference(less, a, b);
        assert((same + a).skip(1) =~= less + a);
        assert((same + b).skip(1) =~= less + b);
        assert((same + a)[0] == same[0] && (same + b)[0] == same[0]);
    }
}

/// Spaces, tabs and the ends of lines are white space; what is printed in ASCII is
/// not.
pub proof fn law_white_space(c: char)
    ensures
        is_space(' ') && is_space('\t') && is_space('\n') && is_space('\r') && is_space('\u{a0}')
            && is_space('\u{3000}'),
        '!' <= c && c <= '~' ==> !is_space(c),
        is_digit(c) <==> c == '0' || c == '1' || c == '2' || c == '3' || c == '4' || c == '5' || c
            == '6' || c == '7' || c == '8' || c == '9',
{
}

/// A text holds another exactly when it stands somewhere in it.
pub proof fn law_holding_is_standing_in(s: Seq<char>, p: Seq<char>, a: Seq<char>, b: Seq<char>)
    ensures
        holds(a + p + b, p),
        holds(s, p) ==> exists|lead: Seq<char>, tail: Seq<char>| s == #[trigger] (lead + p + tail),
        p.len() > s.len() ==> !holds(s, p),
{
    let made = a + p + b;
    assert(made.subrange(a.len() as int, a.len() as int + p.len()) =~= p);
    if holds(s, p) {
        let i = choose|i: int|
            0 <= i && i + p.len() <= s.len() && #[trigger] s.subrange(i, i + p.len()) == p;
        assert(s =~= s.take(i) + p + s.skip(i + p.len()));
    }
}

} // verus!
