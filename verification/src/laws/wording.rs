//! What holds of texts that are cut, joined and searched.
use vstd::prelude::*;
use crate::number::{all_digits, parsed};
use crate::text::{
    after_last, after_prefix, ascii_digit, ascii_lower, ascii_lowered, at, before_first,
    before_last, before_suffix, cut_at, find_of, has, joined, lead, lemma_find, lemma_lead,
    lemma_trail, lines_of, pieces, replaced, some_digit, trail, trim_end_of, trim_of, trimmed,
    without, without_return, without_suffixes, words, CharSet,
};

verus! {

/// Whether every character lies in the set, or every one outside.
pub open spec fn all_in(s: Seq<char>, set: CharSet, inside: bool) -> bool {
    forall|k: int| 0 <= k < s.len() ==> set.has(#[trigger] s[k]) == inside
}

/// How far the characters of a kind reach that a text starts with.
pub proof fn lemma_leading(a: Seq<char>, b: Seq<char>, set: CharSet, inside: bool)
    requires
        all_in(a, set, inside),
        b.len() > 0 ==> set.has(b[0]) != inside,
    ensures
        lead(a + b, set, inside) == a.len(),
{
    let s = a + b;
    lemma_lead(s, set, inside);
    let n = lead(s, set, inside) as int;
    if n < a.len() {
        assert(s[n] == a[n]);
    }
    if n > a.len() {
        assert(s[a.len() as int] == b[0]);
    }
}

/// How far the characters of a kind reach that a text ends with.
pub proof fn lemma_trailing(a: Seq<char>, b: Seq<char>, set: CharSet, inside: bool)
    requires
        all_in(b, set, inside),
        a.len() > 0 ==> set.has(a.last()) != inside,
    ensures
        trail(a + b, set, inside) == b.len(),
{
    let s = a + b;
    lemma_trail(s, set, inside);
    let n = trail(s, set, inside) as int;
    if n < b.len() {
        let k = s.len() - n - 1;
        assert(s[k] == b[k - a.len()]);
    }
    if n > b.len() {
        assert(s[a.len() - 1] == a.last());
    }
}

/// Trimming takes away what lies in the set at both ends, all of it, and nothing within.
pub proof fn law_trimmed_at_both_ends(
    a: Seq<char>,
    t: Seq<char>,
    b: Seq<char>,
    set: CharSet,
    inside: bool,
)
    requires
        all_in(a, set, inside),
        all_in(b, set, inside),
        t.len() > 0 ==> set.has(t[0]) != inside && set.has(t.last()) != inside,
    ensures
        trim_of(a + t + b, set, inside) == t,
        trim_end_of(t + b, set, inside) == t,
        set == CharSet::White && inside ==> trimmed(a + t + b) == t,
{
    let s = a + t + b;
    assert(s =~= a + (t + b));
    if t.len() > 0 {
        assert((t + b)[0] == t[0]);
        lemma_leading(a, t + b, set, inside);
        assert(s.skip(a.len() as int) =~= t + b);
        lemma_trailing(t, b, set, inside);
        assert((t + b).take(t.len() as int) =~= t);
    } else {
        assert(t + b =~= b);
        let all = a + b;
        assert(s =~= all);
        lemma_lead(all, set, inside);
        let n = lead(all, set, inside) as int;
        if n < all.len() {
            if n < a.len() {
                assert(all[n] == a[n]);
            } else {
                assert(all[n] == b[n - a.len()]);
            }
        }
        assert(all.skip(n) =~= Seq::<char>::empty());
        assert(trim_of(s, set, inside) =~= t);
        lemma_trailing(t, b, set, inside);
        assert((t + b).take(0) =~= t);
    }
}

/// What stands before the first, after the last and before the last character of a set.
pub proof fn law_around_a_sign(a: Seq<char>, c: char, b: Seq<char>, set: CharSet)
    requires
        set.has(c),
    ensures
        all_in(a, set, false) ==> before_first(a + seq![c] + b, set) == a,
        all_in(b, set, false) ==> after_last(a + seq![c] + b, set) == b,
        all_in(b, set, false) ==> before_last(a + seq![c] + b, set) == Some(a),
{
    let s = a + seq![c] + b;
    if all_in(a, set, false) {
        assert(s =~= a + (seq![c] + b));
        lemma_leading(a, seq![c] + b, set, false);
        assert(s.take(a.len() as int) =~= a);
    }
    if all_in(b, set, false) {
        assert((a + seq![c]).last() == c);
        lemma_trailing(a + seq![c], b, set, false);
        assert(s.skip(s.len() - b.len()) =~= b);
        assert(s.take(s.len() - b.len() - 1) =~= a);
    }
}

/// Where no character of the set stands, the whole text is before the first and after the last.
pub proof fn law_no_sign(s: Seq<char>, set: CharSet)
    requires
        all_in(s, set, false),
    ensures
        before_first(s, set) == s,
        after_last(s, set) == s,
        before_last(s, set) is None,
        pieces(s, set) == seq![s],
{
    let none = Seq::<char>::empty();
    assert(s + none =~= s);
    assert(none + s =~= s);
    lemma_leading(s, none, set, false);
    lemma_trailing(none, s, set, false);
    assert(s.take(s.len() as int) =~= s);
    assert(s.skip(0) =~= s);
}

/// The pieces of a text that starts with one: that piece, and the pieces of what is behind the sign.
pub proof fn law_pieces_one_by_one(a: Seq<char>, c: char, b: Seq<char>, set: CharSet)
    requires
        set.has(c),
        all_in(a, set, false),
    ensures
        pieces(a + seq![c] + b, set) == seq![a] + pieces(b, set),
{
    let s = a + seq![c] + b;
    assert(s =~= a + (seq![c] + b));
    lemma_leading(a, seq![c] + b, set, false);
    assert(s.take(a.len() as int) =~= a);
    assert(s.skip(a.len() as int + 1) =~= b);
}

/// The words of a text that starts with one: white space in front does not count, and behind the
/// word there is white space or nothing.
pub proof fn law_words_one_by_one(a: Seq<char>, w: Seq<char>, c: char, b: Seq<char>)
    requires
        all_in(a, CharSet::White, true),
        all_in(w, CharSet::White, false),
        w.len() > 0,
        CharSet::White.has(c),
    ensures
        words(a) == Seq::<Seq<char>>::empty(),
        words(a + w) == seq![w],
        words(a + w + seq![c] + b) == seq![w] + words(seq![c] + b),
        words(seq![c] + b) == words(b),
{
    let none = Seq::<char>::empty();
    let set = CharSet::White;
    assert(a + none =~= a);
    lemma_leading(a, none, set, true);
    assert(words(a) =~= Seq::<Seq<char>>::empty());
    lemma_leading(a, w, set, true);
    assert((a + w).skip(a.len() as int) =~= w);
    assert(w + none =~= w);
    lemma_leading(w, none, set, false);
    assert(w.take(w.len() as int) =~= w);
    assert(w.skip(w.len() as int) =~= none);
    lemma_leading(none, none, set, true);
    assert(none + none =~= none);
    assert(words(none) =~= Seq::<Seq<char>>::empty());
    assert(words(a + w) =~= seq![w]);
    let s = a + w + seq![c] + b;
    let t = seq![c] + b;
    assert(s =~= a + (w + t));
    assert((w + t)[0] == w[0]);
    lemma_leading(a, w + t, set, true);
    assert(s.skip(a.len() as int) =~= w + t);
    lemma_leading(w, t, set, false);
    assert((w + t).take(w.len() as int) =~= w);
    assert((w + t).skip(w.len() as int) =~= t);
    lemma_lead(b, set, true);
    let n = lead(b, set, true);
    assert(t.skip(1) =~= b);
    assert(lead(t, set, true) == 1 + n);
    assert(t.skip(1 + n as int) =~= b.skip(n as int));
}

/// The lines of a text that starts with one: a line ends at a line feed, and a carriage return before
/// that is not part of it. What is behind the last line feed is a line unless it is empty.
pub proof fn law_lines_one_by_one(a: Seq<char>, b: Seq<char>)
    requires
        !a.contains('\n'),
    ensures
        lines_of(a + seq!['\n'] + b) == seq![without_return(a)] + lines_of(b),
        a.len() > 0 ==> lines_of(a) == seq![a],
        without_return(a + seq!['\r']) == a,
        a.len() > 0 && a.last() != '\r' ==> without_return(a) == a,
        lines_of(Seq::<char>::empty()) == Seq::<Seq<char>>::empty(),
{
    let set = CharSet::Just('\n');
    assert(all_in(a, set, false)) by {
        assert forall|k: int| 0 <= k < a.len() implies set.has(#[trigger] a[k]) == false by {
            assert(a.contains(a[k]));
        }
    }
    let s = a + seq!['\n'] + b;
    assert(s =~= a + (seq!['\n'] + b));
    lemma_leading(a, seq!['\n'] + b, set, false);
    assert(s.take(a.len() as int) =~= a);
    assert(s.skip(a.len() as int + 1) =~= b);
    let none = Seq::<char>::empty();
    assert(a + none =~= a);
    lemma_leading(a, none, set, false);
    assert((a + seq!['\r']).drop_last() =~= a);
}

/// A text is found where it stands, and not where it does not.
pub proof fn law_has(a: Seq<char>, t: Seq<char>, b: Seq<char>, s: Seq<char>)
    ensures
        has(a + t + b, t),
        has(s, t) ==> exists|x: Seq<char>, y: Seq<char>| s == #[trigger] (x + t + y),
        s.len() < t.len() ==> !(has(s, t)),
        has(s, s),
{
    let all = a + t + b;
    let n = a.len() as int;
    assert(all.subrange(n, n + t.len()) =~= t);
    assert(at(all, t, n));
    assert(s.subrange(0, s.len() as int) =~= s);
    assert(at(s, s, 0));
    if has(s, t) {
        let i = choose|i: int| at(s, t, i);
        assert(s =~= s.take(i) + t + s.skip(i + t.len()));
    }
}

/// A text is cut at the first place where the mark stands: what is before it, the mark and what is
/// behind it make up the text, and the mark stands nowhere before. Without the mark nothing is cut.
pub proof fn law_cut_at_the_first(s: Seq<char>, t: Seq<char>)
    ensures
        cut_at(s, t) is None <==> !(has(s, t)),
        cut_at(s, t) matches Some((before, after)) ==> s == before + t + after && forall|j: int|
            0 <= j < before.len() ==> !#[trigger] at(s, t, j),
        find_of(s, t) matches Some(i) ==> at(s, t, i) && forall|j: int|
            0 <= j < i ==> !#[trigger] at(s, t, j),
        find_of(s, t) is None <==> !(has(s, t)),
{
    lemma_find(s, t, 0);
    if let Some((before, after)) = cut_at(s, t) {
        let i = find_of(s, t)->0;
        assert(at(s, t, i));
        assert(s =~= before + t + after);
    }
    if has(s, t) {
        let i = choose|i: int| at(s, t, i);
        assert(at(s, t, i));
    }
}

/// Prefixes and suffixes are taken off once, where they are there.
pub proof fn law_ends_are_taken_off(p: Seq<char>, s: Seq<char>)
    ensures
        after_prefix(p + s, p) == Some(s),
        before_suffix(s + p, p) == Some(s),
        after_prefix(s, p) matches Some(rest) ==> s == p + rest,
        before_suffix(s, p) matches Some(rest) ==> s == rest + p,
        p.is_prefix_of(s) ==> after_prefix(s, p) is Some,
        p.is_suffix_of(s) ==> before_suffix(s, p) is Some,
{
    assert((p + s).subrange(0, p.len() as int) =~= p);
    assert((p + s).skip(p.len() as int) =~= s);
    assert((s + p).subrange((s + p).len() - p.len(), (s + p).len() as int) =~= p);
    assert((s + p).take((s + p).len() - p.len()) =~= s);
    if p.is_prefix_of(s) {
        assert(s =~= p + s.skip(p.len() as int));
    }
    if p.is_suffix_of(s) {
        assert(s =~= s.take(s.len() - p.len()) + p);
    }
}

/// Suffixes are taken off as often as they are there.
pub proof fn law_suffixes_are_taken_off(s: Seq<char>, p: Seq<char>)
    requires
        p.len() > 0,
    ensures
        without_suffixes(s + p, p) == without_suffixes(s, p),
        !p.is_suffix_of(s) ==> without_suffixes(s, p) == s,
        !p.is_suffix_of(without_suffixes(s, p)),
        without_suffixes(s, p).is_prefix_of(s),
    decreases s.len(),
{
    assert((s + p).subrange((s + p).len() - p.len(), (s + p).len() as int) =~= p);
    assert((s + p).take((s + p).len() - p.len()) =~= s);
    if p.is_suffix_of(s) {
        let t = s.take(s.len() - p.len());
        law_suffixes_are_taken_off(t, p);
        let w = without_suffixes(t, p);
        assert(w =~= s.subrange(0, w.len() as int)) by {
            assert(w =~= t.subrange(0, w.len() as int));
        }
    } else {
        assert(s =~= s.subrange(0, s.len() as int));
    }
}

/// What is joined: the first texts, the separator and the last one.
pub proof fn law_joined(list: Seq<Seq<char>>, s: Seq<char>, sep: Seq<char>)
    ensures
        joined(Seq::<Seq<char>>::empty(), sep).len() == 0,
        joined(seq![s], sep) == s,
        list.len() > 0 ==> joined(list.push(s), sep) == joined(list, sep) + sep + s,
{
    assert(list.push(s).drop_last() =~= list);
}

/// Taking a character out works piece by piece, and touches no other character.
pub proof fn law_without(a: Seq<char>, b: Seq<char>, c: char)
    ensures
        without(a + b, c) == without(a, c) + without(b, c),
        without(seq![c], c).len() == 0,
        !without(a, c).contains(c),
        !a.contains(c) ==> without(a, c) == a,
    decreases a.len() + b.len(),
{
    let one = seq![c];
    assert(one.drop_last() =~= Seq::<char>::empty());
    assert(without(one.drop_last(), c).len() == 0);
    lemma_without(a, c);
    if b.len() == 0 {
        assert(a + b =~= a);
        assert(without(a, c) + without(b, c) =~= without(a, c));
    } else {
        law_without(a, b.drop_last(), c);
        assert((a + b).drop_last() =~= a + b.drop_last());
        assert(without(a + b, c) =~= without(a, c) + without(b, c));
    }
}

proof fn lemma_without(a: Seq<char>, c: char)
    ensures
        !without(a, c).contains(c),
        !a.contains(c) ==> without(a, c) == a,
    decreases a.len(),
{
    if a.len() > 0 {
        let front = a.drop_last();
        lemma_without(front, c);
        if !a.contains(c) {
            assert forall|k: int| 0 <= k < front.len() implies #[trigger] front[k] != c by {
                assert(a.contains(a[k]));
            }
            assert(a.contains(a.last()));
            assert(without(a, c) =~= a);
        }
    } else {
        assert(without(a, c) =~= a);
    }
}

/// Replacing puts the new text in place of each mark, from the front on.
pub proof fn law_replaced(a: Seq<char>, from: Seq<char>, to: Seq<char>, b: Seq<char>)
    requires
        from.len() > 0,
    ensures
        !(has(b, from)) ==> replaced(b, from, to) == b,
        (forall|j: int| 0 <= j < a.len() ==> !#[trigger] at(a + from + b, from, j)) ==> replaced(
            a + from + b,
            from,
            to,
        ) == a + to + replaced(b, from, to),
{
    law_cut_at_the_first(b, from);
    let s = a + from + b;
    if forall|j: int| 0 <= j < a.len() ==> !#[trigger] at(s, from, j) {
        law_has(a, from, b, s);
        lemma_find(s, from, 0);
        let n = a.len() as int;
        assert(s.subrange(n, n + from.len()) =~= from);
        assert(at(s, from, n));
        assert(find_of(s, from) == Some(n));
        assert(s.take(n) =~= a);
        assert(s.skip(n + from.len()) =~= b);
    }
}

/// Small letters stand for capitals, and everything else for itself.
pub proof fn law_lower_case(a: Seq<char>, b: Seq<char>, i: int)
    requires
        0 <= i < a.len(),
    ensures
        ascii_lowered(a).len() == a.len(),
        'A' <= a[i] <= 'Z' ==> ascii_lowered(a)[i] as int == a[i] as int + 32,
        !('A' <= a[i] <= 'Z') ==> ascii_lowered(a)[i] == a[i],
        ascii_lowered(a + b) == ascii_lowered(a) + ascii_lowered(b),
{
    if 'A' <= a[i] <= 'Z' {
        assert(ascii_lowered(a)[i] == ascii_lower(a[i]));
    }
    assert(ascii_lowered(a + b) =~= ascii_lowered(a) + ascii_lowered(b));
}

/// A digit anywhere in a text is a digit of it.
pub proof fn law_some_digit(a: Seq<char>, b: Seq<char>, c: char)
    ensures
        some_digit(a + b) == (some_digit(a) || some_digit(b)),
        some_digit(seq![c]) == ('0' <= c <= '9'),
        !some_digit(Seq::<char>::empty()),
{
    if some_digit(a) {
        let i = choose|i: int| 0 <= i < a.len() && ascii_digit(#[trigger] a[i]);
        assert((a + b)[i] == a[i]);
    }
    if some_digit(b) {
        let i = choose|i: int| 0 <= i < b.len() && ascii_digit(#[trigger] b[i]);
        assert((a + b)[a.len() + i] == b[i]);
    }
    if some_digit(a + b) {
        let i = choose|i: int| 0 <= i < (a + b).len() && ascii_digit(#[trigger] (a + b)[i]);
        if i < a.len() {
            assert(a[i] == (a + b)[i]);
        } else {
            assert(b[i - a.len()] == (a + b)[i]);
        }
    }
    if '0' <= c <= '9' {
        assert(ascii_digit(seq![c][0]));
    }
}

/// What counts as a number: digits, one at least, with a plus in front or not, and not above the
/// limit.
pub proof fn law_numbers(s: Seq<char>, i: int, max: nat, larger: nat)
    ensures
        parsed(Seq::<char>::empty(), max) is None,
        parsed(seq!['+'], max) is None,
        0 < i < s.len() && !('0' <= s[i] <= '9') ==> parsed(s, max) is None,
        s.len() > 0 && !('0' <= s[0] <= '9') && s[0] != '+' ==> parsed(s, max) is None,
        parsed(s, max) matches Some(n) ==> n <= max,
        s.len() > 0 && s[0] != '+' ==> parsed(seq!['+'] + s, max) == parsed(s, max),
        max <= larger && parsed(s, max) is Some ==> parsed(s, larger) == parsed(s, max),
        parsed(s, larger) matches Some(n) ==> (n > max ==> parsed(s, max) is None),
{
    assert(seq!['+'].skip(1) =~= Seq::<char>::empty());
    assert((seq!['+'] + s).skip(1) =~= s);
    if 0 < i < s.len() && !('0' <= s[i] <= '9') {
        assert(s.skip(1)[i - 1] == s[i]);
        assert(!ascii_digit(s[i]));
        assert(!all_digits(s));
        assert(!all_digits(s.skip(1)));
    }
    if s.len() > 0 && !('0' <= s[0] <= '9') {
        assert(!ascii_digit(s[0]));
    }
}

} // verus!
