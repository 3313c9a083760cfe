//! Text as sequences of characters: searching, trimming, splitting and joining.
use vstd::prelude::*;
use vstd::utf8::{decode_utf8, valid_utf8};

verus! {

/// Whether a character has the Unicode property `White_Space`.
pub open spec fn white_space(c: char) -> bool {
    let n = c as int;
    ||| 0x9 <= n <= 0xd
    ||| n == 0x20
    ||| n == 0x85
    ||| n == 0xa0
    ||| n == 0x1680
    ||| 0x2000 <= n <= 0x200a
    ||| n == 0x2028
    ||| n == 0x2029
    ||| n == 0x202f
    ||| n == 0x205f
    ||| n == 0x3000
}

/// `char::is_whitespace` tells whether a character has the property `White_Space`, which Unicode
/// gives to the characters that `white_space` lists.
pub assume_specification[ char::is_whitespace ](c: char) -> (r: bool)
    ensures
        r == white_space(c),
;

/// Whether a character has the Unicode property `Alphabetic` or is of a numeric category.
pub uninterp spec fn alphanumeric(c: char) -> bool;

/// `char::is_alphanumeric` decides by the character alone; its tables are Unicode's, and only its
/// answer is given a name here.
pub assume_specification[ char::is_alphanumeric ](c: char) -> (r: bool)
    ensures
        r == alphanumeric(c),
;

/// Whether every character is an ASCII character.
pub open spec fn all_ascii(s: Seq<char>) -> bool {
    forall|i: int| 0 <= i < s.len() ==> (#[trigger] s[i] as int) < 0x80
}

/// The lower case of a text that is not all ASCII, by Unicode's rules.
pub uninterp spec fn unicode_lowercase(s: Seq<char>) -> Seq<char>;

/// The lower case of a text: of ASCII text its letters in lower case, and what Unicode says of any
/// other.
pub open spec fn lowercase(s: Seq<char>) -> Seq<char> {
    if all_ascii(s) {
        ascii_lowered(s)
    } else {
        unicode_lowercase(s)
    }
}

/// `str::to_lowercase` maps a text by Unicode's tables, whatever the locale. ASCII letters become
/// their lower case and other ASCII characters stay; the result on a text with other characters is
/// given a name here.
#[verifier::external_body]
pub(crate) fn to_lower(s: &str) -> (r: String)
    ensures
        all_ascii(s@) ==> r@ == ascii_lowered(s@),
        !all_ascii(s@) ==> r@ == unicode_lowercase(s@),
{
    s.to_lowercase()
}

/// What a byte sequence that is not UTF-8 reads as when every malformed part becomes U+FFFD.
pub uninterp spec fn repaired_utf8(bytes: Seq<u8>) -> Seq<char>;

/// What a byte sequence reads as: what it encodes, with U+FFFD for every malformed part.
pub open spec fn utf8_lossy(bytes: Seq<u8>) -> Seq<char> {
    if valid_utf8(bytes) {
        decode_utf8(bytes)
    } else {
        repaired_utf8(bytes)
    }
}

/// `String::from_utf8_lossy` reads bytes as UTF-8 and puts U+FFFD for what is malformed. Where
/// nothing is malformed, the result is what the bytes encode; else it is given a name here.
#[verifier::external_body]
pub(crate) fn from_utf8_lossy(bytes: &Vec<u8>) -> (r: String)
    ensures
        valid_utf8(bytes@) ==> r@ == decode_utf8(bytes@),
        !valid_utf8(bytes@) ==> r@ == repaired_utf8(bytes@),
{
    String::from_utf8_lossy(bytes).into_owned()
}

/// `String::push` appends one character.
pub assume_specification[ String::push ](s: &mut String, c: char)
    ensures
        final(s)@ == old(s)@.push(c),
;

/// The contents of a list of strings.
pub open spec fn texts(v: Seq<String>) -> Seq<Seq<char>> {
    v.map_values(|s: String| s@)
}

/// The contents of an optional string.
pub open spec fn text_of(o: Option<String>) -> Option<Seq<char>> {
    match o {
        Some(s) => Some(s@),
        None => None,
    }
}

/// The text, or another one where there is none.
pub open spec fn text_or(o: Option<Seq<char>>, other: Seq<char>) -> Seq<char> {
    match o {
        Some(s) => s,
        None => other,
    }
}

/// Appends a string to a list.
pub(crate) fn push_text(v: &mut Vec<String>, s: String)
    ensures
        texts(final(v)@) == texts(old(v)@).push(s@),
        final(v)@ == old(v)@.push(s),
{
    let ghost before = v@;
    v.push(s);
    assert(texts(v@) =~= texts(before).push(s@));
}

/// The characters of a text.
pub(crate) fn chars(s: &str) -> (v: Vec<char>)
    ensures
        v@ == s@,
{
    let mut v: Vec<char> = Vec::new();
    for c in it: s.chars()
        invariant
            it.seq() == s@,
            v@ == it.seq().take(it.index()),
    {
        v.push(c);
    }
    v
}

/// The text that a range of characters makes.
pub(crate) fn slice_text(v: &Vec<char>, from: usize, to: usize) -> (r: String)
    requires
        from <= to <= v.len(),
    ensures
        r@ == v@.subrange(from as int, to as int),
{
    let mut r = String::new();
    let mut i: usize = from;
    while i < to
        invariant
            from <= i <= to <= v.len(),
            r@ == v@.subrange(from as int, i as int),
        decreases to - i,
    {
        r.push(v[i]);
        i = i + 1;
        assert(r@ =~= v@.subrange(from as int, i as int));
    }
    r
}

/// Whether two texts are the same.
pub(crate) fn same(a: &str, b: &str) -> (r: bool)
    ensures
        r == (a@ == b@),
{
    a.to_owned() == b.to_owned()
}

pub(crate) fn cat2(a: &str, b: &str) -> (r: String)
    ensures
        r@ == a@ + b@,
{
    let mut r = a.to_owned();
    r.append(b);
    r
}

pub(crate) fn cat3(a: &str, b: &str, c: &str) -> (r: String)
    ensures
        r@ == a@ + b@ + c@,
{
    let mut r = cat2(a, b);
    r.append(c);
    r
}

pub(crate) fn cat4(a: &str, b: &str, c: &str, d: &str) -> (r: String)
    ensures
        r@ == a@ + b@ + c@ + d@,
{
    let mut r = cat3(a, b, c);
    r.append(d);
    r
}

pub(crate) fn cat5(a: &str, b: &str, c: &str, d: &str, e: &str) -> (r: String)
    ensures
        r@ == a@ + b@ + c@ + d@ + e@,
{
    let mut r = cat4(a, b, c, d);
    r.append(e);
    r
}

pub(crate) fn cat6(a: &str, b: &str, c: &str, d: &str, e: &str, f: &str) -> (r: String)
    ensures
        r@ == a@ + b@ + c@ + d@ + e@ + f@,
{
    let mut r = cat5(a, b, c, d, e);
    r.append(f);
    r
}

pub(crate) fn cat7(a: &str, b: &str, c: &str, d: &str, e: &str, f: &str, g: &str) -> (r: String)
    ensures
        r@ == a@ + b@ + c@ + d@ + e@ + f@ + g@,
{
    let mut r = cat6(a, b, c, d, e, f);
    r.append(g);
    r
}

/// A set of characters.
#[derive(Clone, Copy)]
pub enum CharSet {
    /// Unicode white space.
    White,
    /// One character.
    Just(char),
    /// What separates the parts of a file path.
    PathSeparator,
    /// What a dotted class name holds: letters, digits, `.` and `$`.
    ClassName,
}

impl CharSet {
    pub open spec fn has(self, c: char) -> bool {
        match self {
            CharSet::White => white_space(c),
            CharSet::Just(x) => c == x,
            CharSet::PathSeparator => c == '/' || c == '\\',
            CharSet::ClassName => alphanumeric(c) || c == '.' || c == '$',
        }
    }

    pub fn contains(self, c: char) -> (r: bool)
        ensures
            r == self.has(c),
    {
        match self {
            CharSet::White => c.is_whitespace(),
            CharSet::Just(x) => c == x,
            CharSet::PathSeparator => c == '/' || c == '\\',
            CharSet::ClassName => c.is_alphanumeric() || c == '.' || c == '$',
        }
    }
}

/// How many characters at the front of `s` lie in the set (`inside`), or out of it.
pub open spec fn lead(s: Seq<char>, set: CharSet, inside: bool) -> nat
    decreases s.len(),
{
    if s.len() == 0 || set.has(s[0]) != inside {
        0
    } else {
        1 + lead(s.skip(1), set, inside)
    }
}

/// How many characters at the end of `s` lie in the set (`inside`), or out of it.
pub open spec fn trail(s: Seq<char>, set: CharSet, inside: bool) -> nat
    decreases s.len(),
{
    if s.len() == 0 || set.has(s.last()) != inside {
        0
    } else {
        1 + trail(s.drop_last(), set, inside)
    }
}

pub proof fn lemma_lead(s: Seq<char>, set: CharSet, inside: bool)
    ensures
        lead(s, set, inside) <= s.len(),
        forall|k: int| 0 <= k < lead(s, set, inside) ==> set.has(#[trigger] s[k]) == inside,
        lead(s, set, inside) < s.len() ==> set.has(s[lead(s, set, inside) as int]) != inside,
    decreases s.len(),
{
    if s.len() > 0 && set.has(s[0]) == inside {
        lemma_lead(s.skip(1), set, inside);
        assert forall|k: int| 0 <= k < lead(s, set, inside) implies set.has(#[trigger] s[k])
            == inside by {
            if k > 0 {
                assert(s.skip(1)[k - 1] == s[k]);
            }
        }
    }
}

pub proof fn lemma_trail(s: Seq<char>, set: CharSet, inside: bool)
    ensures
        trail(s, set, inside) <= s.len(),
        forall|k: int|
            s.len() - trail(s, set, inside) <= k < s.len() ==> set.has(#[trigger] s[k]) == inside,
        trail(s, set, inside) < s.len() ==> set.has(s[s.len() - trail(s, set, inside) - 1])
            != inside,
    decreases s.len(),
{
    if s.len() > 0 && set.has(s.last()) == inside {
        lemma_trail(s.drop_last(), set, inside);
        assert forall|k: int|
            s.len() - trail(s, set, inside) <= k < s.len() implies set.has(#[trigger] s[k])
            == inside by {
            if k < s.len() - 1 {
                assert(s.drop_last()[k] == s[k]);
            }
        }
    }
}

/// Where the run of characters that starts at `from` ends.
pub(crate) fn run_end(v: &Vec<char>, from: usize, set: CharSet, inside: bool) -> (r: usize)
    requires
        from <= v.len(),
    ensures
        from <= r <= v.len(),
        r - from == lead(v@.skip(from as int), set, inside),
{
    let mut i: usize = from;
    while i < v.len() && set.contains(v[i]) == inside
        invariant
            from <= i <= v.len(),
            lead(v@.skip(from as int), set, inside) == (i - from) + lead(
                v@.skip(i as int),
                set,
                inside,
            ),
        decreases v.len() - i,
    {
        assert(v@.skip(i as int).skip(1) =~= v@.skip(i + 1));
        i = i + 1;
    }
    i
}

/// Where the run of characters that ends at `to` starts.
pub(crate) fn run_start(v: &Vec<char>, to: usize, set: CharSet, inside: bool) -> (r: usize)
    requires
        to <= v.len(),
    ensures
        r <= to,
        to - r == trail(v@.take(to as int), set, inside),
{
    let mut i: usize = to;
    while i > 0 && set.contains(v[i - 1]) == inside
        invariant
            i <= to <= v.len(),
            trail(v@.take(to as int), set, inside) == (to - i) + trail(
                v@.take(i as int),
                set,
                inside,
            ),
        decreases i,
    {
        assert(v@.take(i as int).drop_last() =~= v@.take(i - 1));
        i = i - 1;
    }
    i
}

/// `s` without the characters of the set at its end.
pub open spec fn trim_end_of(s: Seq<char>, set: CharSet, inside: bool) -> Seq<char> {
    s.take(s.len() - trail(s, set, inside))
}

/// `s` without the characters of the set at either end (those out of it, where not `inside`).
pub open spec fn trim_of(s: Seq<char>, set: CharSet, inside: bool) -> Seq<char> {
    trim_end_of(s.skip(lead(s, set, inside) as int), set, inside)
}

/// `s` without white space at either end.
pub open spec fn trimmed(s: Seq<char>) -> Seq<char> {
    trim_of(s, CharSet::White, true)
}

pub(crate) fn trim_end_set<'a>(s: &'a str, set: CharSet, inside: bool) -> (r: &'a str)
    ensures
        r@ == trim_end_of(s@, set, inside),
{
    let v = chars(s);
    let end = run_start(&v, v.len(), set, inside);
    assert(v@.take(v.len() as int) =~= s@);
    let r = s.substring_char(0, end);
    assert(r@ =~= trim_end_of(s@, set, inside));
    r
}

pub(crate) fn trim_set<'a>(s: &'a str, set: CharSet, inside: bool) -> (r: &'a str)
    ensures
        r@ == trim_of(s@, set, inside),
{
    let v = chars(s);
    assert(v@.skip(0) =~= s@);
    let start = run_end(&v, 0, set, inside);
    let rest = s.substring_char(start, v.len());
    assert(rest@ =~= s@.skip(start as int));
    trim_end_set(rest, set, inside)
}

pub(crate) fn trim<'a>(s: &'a str) -> (r: &'a str)
    ensures
        r@ == trimmed(s@),
{
    trim_set(s, CharSet::White, true)
}

/// Whether `t` stands in `s` at `i`.
pub open spec fn at(s: Seq<char>, t: Seq<char>, i: int) -> bool {
    0 <= i && i + t.len() <= s.len() && s.subrange(i, i + t.len()) == t
}

/// Whether `t` stands in `s` anywhere.
pub open spec fn has(s: Seq<char>, t: Seq<char>) -> bool {
    exists|i: int| at(s, t, i)
}

/// The first place at or after `i` where `t` stands in `s`.
pub open spec fn find_from(s: Seq<char>, t: Seq<char>, i: int) -> Option<int>
    decreases s.len() + 1 - i,
{
    if i < 0 || i + t.len() > s.len() {
        None
    } else if at(s, t, i) {
        Some(i)
    } else {
        find_from(s, t, i + 1)
    }
}

/// The first place where `t` stands in `s`.
pub open spec fn find_of(s: Seq<char>, t: Seq<char>) -> Option<int> {
    find_from(s, t, 0)
}

/// What is found stands there, and nowhere before.
pub proof fn lemma_find(s: Seq<char>, t: Seq<char>, i: int)
    requires
        0 <= i,
    ensures
        match find_from(s, t, i) {
            Some(k) => {
                &&& i <= k
                &&& at(s, t, k)
                &&& forall|j: int| i <= j < k ==> !#[trigger] at(s, t, j)
            },
            None => forall|j: int| i <= j ==> !#[trigger] at(s, t, j),
        },
    decreases s.len() + 1 - i,
{
    if i + t.len() <= s.len() && !at(s, t, i) {
        lemma_find(s, t, i + 1);
    }
}

fn at_index(v: &Vec<char>, t: &Vec<char>, i: usize) -> (r: bool)
    requires
        i + t.len() <= v.len(),
    ensures
        r == at(v@, t@, i as int),
{
    let mut k: usize = 0;
    while k < t.len()
        invariant
            k <= t.len(),
            i + t.len() <= v.len(),
            forall|j: int| 0 <= j < k ==> v@[i + j] == t@[j],
        decreases t.len() - k,
    {
        if v[i + k] != t[k] {
            assert(v@.subrange(i as int, i + t@.len())[k as int] != t@[k as int]);
            return false;
        }
        k = k + 1;
    }
    assert(v@.subrange(i as int, i + t@.len()) =~= t@);
    true
}

/// The first place where `t` stands in the characters `v`.
pub(crate) fn find_chars(v: &Vec<char>, t: &Vec<char>) -> (r: Option<usize>)
    ensures
        match r {
            Some(i) => find_of(v@, t@) == Some(i as int) && i + t.len() <= v.len(),
            None => find_of(v@, t@) is None,
        },
        (r is Some) == has(v@, t@),
{
    if t.len() > v.len() {
        return None;
    }
    let mut i: usize = 0;
    while i <= v.len() - t.len()
        invariant
            t.len() <= v.len(),
            i <= v.len() - t.len() + 1,
            find_of(v@, t@) == find_from(v@, t@, i as int),
            forall|j: int| 0 <= j < i ==> !at(v@, t@, j),
        decreases v.len() + 1 - i,
    {
        if at_index(v, t, i) {
            return Some(i);
        }
        if i == v.len() - t.len() {
            assert(find_from(v@, t@, i + 1) is None);
            return None;
        }
        i = i + 1;
    }
    None
}

/// The first place, counted in characters, where `t` stands in `s`.
pub(crate) fn find(s: &str, t: &str) -> (r: Option<usize>)
    ensures
        match r {
            Some(i) => find_of(s@, t@) == Some(i as int) && i + t@.len() <= s@.len(),
            None => find_of(s@, t@) is None,
        },
        (r is Some) == has(s@, t@),
{
    find_chars(&chars(s), &chars(t))
}

pub(crate) fn contains(s: &str, t: &str) -> (r: bool)
    ensures
        r == has(s@, t@),
{
    find(s, t).is_some()
}

pub(crate) fn contains_char(s: &str, c: char) -> (r: bool)
    ensures
        r == s@.contains(c),
{
    let v = chars(s);
    let mut i: usize = 0;
    while i < v.len()
        invariant
            i <= v.len(),
            v@ == s@,
            forall|j: int| 0 <= j < i ==> v@[j] != c,
        decreases v.len() - i,
    {
        if v[i] == c {
            return true;
        }
        i = i + 1;
    }
    false
}

/// What is left of `s` behind the prefix `p`, if `s` starts with it.
pub open spec fn after_prefix(s: Seq<char>, p: Seq<char>) -> Option<Seq<char>> {
    if p.is_prefix_of(s) {
        Some(s.skip(p.len() as int))
    } else {
        None
    }
}

/// What is left of `s` before the suffix `p`, if `s` ends with it.
pub open spec fn before_suffix(s: Seq<char>, p: Seq<char>) -> Option<Seq<char>> {
    if p.is_suffix_of(s) {
        Some(s.take(s.len() - p.len()))
    } else {
        None
    }
}

pub(crate) fn starts_with(s: &str, p: &str) -> (r: bool)
    ensures
        r == p@.is_prefix_of(s@),
{
    let v = chars(s);
    let t = chars(p);
    if t.len() > v.len() {
        return false;
    }
    let r = at_index(&v, &t, 0);
    r
}

pub(crate) fn ends_with(s: &str, p: &str) -> (r: bool)
    ensures
        r == p@.is_suffix_of(s@),
{
    let v = chars(s);
    let t = chars(p);
    if t.len() > v.len() {
        return false;
    }
    let r = at_index(&v, &t, v.len() - t.len());
    r
}

pub(crate) fn strip_prefix<'a>(s: &'a str, p: &str) -> (r: Option<&'a str>)
    ensures
        match r {
            Some(rest) => after_prefix(s@, p@) == Some(rest@),
            None => after_prefix(s@, p@) is None,
        },
{
    if starts_with(s, p) {
        let n: usize = p.unicode_len();
        let rest = s.substring_char(n, s.unicode_len());
        assert(rest@ =~= s@.skip(n as int));
        Some(rest)
    } else {
        None
    }
}

pub(crate) fn strip_suffix<'a>(s: &'a str, p: &str) -> (r: Option<&'a str>)
    ensures
        match r {
            Some(rest) => before_suffix(s@, p@) == Some(rest@),
            None => before_suffix(s@, p@) is None,
        },
{
    if ends_with(s, p) {
        let n: usize = s.unicode_len() - p.unicode_len();
        let rest = s.substring_char(0, n);
        assert(rest@ =~= s@.take(n as int));
        Some(rest)
    } else {
        None
    }
}

/// The parts of `s` around the first place where `t` stands in it.
pub open spec fn cut_at(s: Seq<char>, t: Seq<char>) -> Option<(Seq<char>, Seq<char>)> {
    match find_of(s, t) {
        Some(i) => Some((s.take(i), s.skip(i + t.len()))),
        None => None,
    }
}

pub(crate) fn split_once<'a>(s: &'a str, t: &str) -> (r: Option<(&'a str, &'a str)>)
    ensures
        match r {
            Some((a, b)) => cut_at(s@, t@) == Some((a@, b@)),
            None => cut_at(s@, t@) is None,
        },
{
    match find(s, t) {
        Some(i) => {
            let n: usize = s.unicode_len();
            let a = s.substring_char(0, i);
            let b = s.substring_char(i + t.unicode_len(), n);
            assert(a@ =~= s@.take(i as int));
            assert(b@ =~= s@.skip(i + t@.len()));
            Some((a, b))
        },
        None => None,
    }
}

/// `s` with `to` in place of each `from`, found from the front on.
pub open spec fn replaced(s: Seq<char>, from: Seq<char>, to: Seq<char>) -> Seq<char>
    decreases s.len(),
{
    if from.len() == 0 {
        s
    } else {
        match cut_at(s, from) {
            Some((before, after)) => {
                proof {
                    lemma_find(s, from, 0);
                }
                before + to + replaced(after, from, to)
            },
            None => s,
        }
    }
}

pub(crate) fn replace(s: &str, from: &str, to: &str) -> (r: String)
    requires
        from@.len() > 0,
    ensures
        r@ == replaced(s@, from@, to@),
{
    let mut r = String::new();
    let mut rest: &str = s;
    assert(r@ + replaced(s@, from@, to@) =~= replaced(s@, from@, to@));
    loop
        invariant
            from@.len() > 0,
            r@ + replaced(rest@, from@, to@) == replaced(s@, from@, to@),
        decreases rest@.len(),
    {
        match split_once(rest, from) {
            Some((before, after)) => {
                let ghost start = r@;
                r.append(before);
                r.append(to);
                proof {
                    lemma_find(rest@, from@, 0);
                }
                assert(r@ + replaced(after@, from@, to@) =~= start + (before@ + to@ + replaced(
                    after@,
                    from@,
                    to@,
                )));
                rest = after;
            },
            None => {
                r.append(rest);
                return r;
            },
        }
    }
}

/// `s` up to the first character of the set, or all of it.
pub open spec fn before_first(s: Seq<char>, set: CharSet) -> Seq<char> {
    s.take(lead(s, set, false) as int)
}

pub(crate) fn head<'a>(s: &'a str, set: CharSet) -> (r: &'a str)
    ensures
        r@ == before_first(s@, set),
{
    let v = chars(s);
    assert(v@.skip(0) =~= s@);
    let n = run_end(&v, 0, set, false);
    let r = s.substring_char(0, n);
    assert(r@ =~= before_first(s@, set));
    r
}

/// `s` behind its last character of the set, or all of it.
pub open spec fn after_last(s: Seq<char>, set: CharSet) -> Seq<char> {
    s.skip(s.len() - trail(s, set, false))
}

pub(crate) fn tail<'a>(s: &'a str, set: CharSet) -> (r: &'a str)
    ensures
        r@ == after_last(s@, set),
{
    let v = chars(s);
    assert(v@.take(v.len() as int) =~= s@);
    let n = run_start(&v, v.len(), set, false);
    let r = s.substring_char(n, v.len());
    assert(r@ =~= after_last(s@, set));
    r
}

/// `s` up to its last character of the set, if it has one.
pub open spec fn before_last(s: Seq<char>, set: CharSet) -> Option<Seq<char>> {
    let n = trail(s, set, false);
    if n >= s.len() {
        None
    } else {
        Some(s.take(s.len() - n - 1))
    }
}

pub(crate) fn cut_last<'a>(s: &'a str, set: CharSet) -> (r: Option<&'a str>)
    ensures
        match r {
            Some(t) => before_last(s@, set) == Some(t@) && t@.len() < s@.len(),
            None => before_last(s@, set) is None,
        },
{
    let v = chars(s);
    assert(v@.take(v.len() as int) =~= s@);
    let n = run_start(&v, v.len(), set, false);
    if n == 0 {
        None
    } else {
        let r = s.substring_char(0, n - 1);
        assert(r@ =~= s@.take(n - 1));
        Some(r)
    }
}

/// The parts of `s` between the characters of the set.
pub open spec fn pieces(s: Seq<char>, set: CharSet) -> Seq<Seq<char>>
    decreases s.len(),
{
    let n = lead(s, set, false);
    if n >= s.len() {
        seq![s]
    } else {
        seq![s.take(n as int)] + pieces(s.skip(n as int + 1), set)
    }
}

pub(crate) fn split(s: &str, set: CharSet) -> (r: Vec<String>)
    ensures
        texts(r@) == pieces(s@, set),
        r.len() >= 1,
{
    let v = chars(s);
    let mut out: Vec<String> = Vec::new();
    let mut i: usize = 0;
    assert(v@.skip(0) =~= v@);
    assert(texts(out@) + pieces(v@, set) =~= pieces(v@, set));
    loop
        invariant
            v@ == s@,
            i <= v.len(),
            texts(out@) + pieces(v@.skip(i as int), set) == pieces(v@, set),
        decreases v.len() - i,
    {
        let ghost rest = v@.skip(i as int);
        let end = run_end(&v, i, set, false);
        let ghost before = texts(out@);
        push_text(&mut out, slice_text(&v, i, end));
        assert(v@.subrange(i as int, end as int) =~= rest.take(end - i));
        if end == v.len() {
            assert(rest.take(end - i) =~= rest);
            assert(texts(out@) =~= before + seq![rest]);
            return out;
        }
        assert(rest.skip(end - i + 1) =~= v@.skip(end + 1));
        assert(texts(out@) + pieces(v@.skip(end + 1), set) =~= before + (seq![
            rest.take(end - i),
        ] + pieces(v@.skip(end + 1), set)));
        i = end + 1;
    }
}

/// The words of `s`: its longest parts without white space.
pub open spec fn words(s: Seq<char>) -> Seq<Seq<char>>
    decreases s.len(),
{
    let r = s.skip(lead(s, CharSet::White, true) as int);
    let n = lead(r, CharSet::White, false);
    if r.len() == 0 {
        Seq::empty()
    } else {
        proof {
            lemma_lead(s, CharSet::White, true);
            lemma_lead(r, CharSet::White, false);
            assert(r[0] == s[s.len() - r.len()]);
        }
        seq![r.take(n as int)] + words(r.skip(n as int))
    }
}

pub(crate) fn split_words(s: &str) -> (r: Vec<String>)
    ensures
        texts(r@) == words(s@),
{
    let v = chars(s);
    let mut out: Vec<String> = Vec::new();
    let mut i: usize = 0;
    assert(v@.skip(0) =~= v@);
    assert(texts(out@) + words(v@) =~= words(v@));
    loop
        invariant
            v@ == s@,
            i <= v.len(),
            texts(out@) + words(v@.skip(i as int)) == words(v@),
        decreases v.len() - i,
    {
        let ghost rest = v@.skip(i as int);
        let start = run_end(&v, i, CharSet::White, true);
        let ghost r = v@.skip(start as int);
        assert(rest.skip(start - i) =~= r);
        if start == v.len() {
            assert(texts(out@) + words(rest) =~= texts(out@));
            return out;
        }
        let end = run_end(&v, start, CharSet::White, false);
        proof {
            lemma_lead(rest, CharSet::White, true);
            lemma_lead(r, CharSet::White, false);
            assert(r[0] == rest[start - i]);
        }
        let ghost before = texts(out@);
        push_text(&mut out, slice_text(&v, start, end));
        assert(v@.subrange(start as int, end as int) =~= r.take(end - start));
        assert(r.skip(end - start) =~= v@.skip(end as int));
        assert(texts(out@) + words(v@.skip(end as int)) =~= before + (seq![r.take(end - start)]
            + words(v@.skip(end as int))));
        i = end;
    }
}

/// The lines of `s`: each ends at a line feed, or at a carriage return and a line feed, which are
/// not part of it; what follows the last one is a line unless it is empty.
pub open spec fn lines_of(s: Seq<char>) -> Seq<Seq<char>>
    decreases s.len(),
{
    let n = lead(s, CharSet::Just('\n'), false);
    if s.len() == 0 {
        Seq::empty()
    } else if n >= s.len() {
        seq![s]
    } else {
        seq![without_return(s.take(n as int))] + lines_of(s.skip(n as int + 1))
    }
}

/// `s` without a carriage return at its end.
pub open spec fn without_return(s: Seq<char>) -> Seq<char> {
    if s.len() > 0 && s.last() == '\r' {
        s.drop_last()
    } else {
        s
    }
}

pub(crate) fn lines(s: &str) -> (r: Vec<String>)
    ensures
        texts(r@) == lines_of(s@),
{
    let v = chars(s);
    let mut out: Vec<String> = Vec::new();
    let mut i: usize = 0;
    assert(v@.skip(0) =~= v@);
    assert(texts(out@) + lines_of(v@) =~= lines_of(v@));
    while i < v.len()
        invariant
            v@ == s@,
            i <= v.len(),
            texts(out@) + lines_of(v@.skip(i as int)) == lines_of(v@),
        decreases v.len() - i,
    {
        let ghost rest = v@.skip(i as int);
        let end = run_end(&v, i, CharSet::Just('\n'), false);
        let ghost before = texts(out@);
        if end == v.len() {
            push_text(&mut out, slice_text(&v, i, end));
            assert(v@.subrange(i as int, end as int) =~= rest);
            assert(texts(out@) =~= before + seq![rest]);
            return out;
        }
        let ghost part = rest.take(end - i);
        assert(v@.subrange(i as int, end as int) =~= part);
        if end > i && v[end - 1] == '\r' {
            push_text(&mut out, slice_text(&v, i, end - 1));
            assert(v@.subrange(i as int, end - 1) =~= part.drop_last());
        } else {
            push_text(&mut out, slice_text(&v, i, end));
        }
        assert(rest.skip(end - i + 1) =~= v@.skip(end + 1));
        assert(texts(out@) + lines_of(v@.skip(end + 1)) =~= before + (seq![without_return(part)]
            + lines_of(v@.skip(end + 1))));
        i = end + 1;
    }
    assert(texts(out@) + lines_of(v@.skip(i as int)) =~= texts(out@));
    out
}

/// The texts of a list, with `sep` between each two.
pub open spec fn joined(list: Seq<Seq<char>>, sep: Seq<char>) -> Seq<char>
    decreases list.len(),
{
    if list.len() == 0 {
        Seq::empty()
    } else if list.len() == 1 {
        list[0]
    } else {
        joined(list.drop_last(), sep) + sep + list.last()
    }
}

pub(crate) fn join(list: &Vec<String>, sep: &str) -> (r: String)
    ensures
        r@ == joined(texts(list@), sep@),
{
    let mut r = String::new();
    let mut i: usize = 0;
    let ghost all = texts(list@);
    while i < list.len()
        invariant
            i <= list.len(),
            all == texts(list@),
            r@ == joined(all.take(i as int), sep@),
        decreases list.len() - i,
    {
        assert(all.take(i + 1).drop_last() =~= all.take(i as int));
        assert(all.take(i + 1).last() == list@[i as int]@);
        if i > 0 {
            r.append(sep);
        }
        r.append(&list[i]);
        i = i + 1;
        assert(r@ =~= joined(all.take(i as int), sep@));
    }
    assert(all.take(i as int) =~= all);
    r
}

/// The first `n` of a list.
pub(crate) fn first_texts(list: &Vec<String>, n: usize) -> (r: Vec<String>)
    ensures
        texts(r@) == texts(list@).take(if n < list.len() { n as int } else { list.len() as int }),
{
    let mut r: Vec<String> = Vec::new();
    let mut i: usize = 0;
    while i < list.len() && i < n
        invariant
            i <= list.len(),
            i <= n,
            texts(r@) == texts(list@).take(i as int),
        decreases list.len() - i,
    {
        push_text(&mut r, list[i].clone());
        i = i + 1;
        assert(texts(r@) =~= texts(list@).take(i as int));
    }
    r
}

/// Whether a list of texts holds `s`.
pub(crate) fn holds(list: &Vec<String>, s: &str) -> (r: bool)
    ensures
        r == texts(list@).contains(s@),
{
    let mut i: usize = 0;
    while i < list.len()
        invariant
            i <= list.len(),
            forall|j: int| 0 <= j < i ==> texts(list@)[j] != s@,
        decreases list.len() - i,
    {
        if same(&list[i], s) {
            assert(texts(list@)[i as int] == s@);
            return true;
        }
        i = i + 1;
    }
    false
}

/// At most `max` characters of `s`, and three dots where some were left out.
pub open spec fn truncated(s: Seq<char>, max: nat) -> Seq<char> {
    if s.len() > max {
        s.take(max as int) + "..."@
    } else {
        s
    }
}

pub(crate) fn truncate(s: &str, max: usize) -> (r: String)
    ensures
        r@ == truncated(s@, max as nat),
{
    let v = chars(s);
    if v.len() > max {
        let cut = slice_text(&v, 0, max);
        assert(cut@ =~= s@.take(max as int));
        cat2(&cut, "...")
    } else {
        s.to_owned()
    }
}

/// `s` with the suffix `p` taken off its end as often as it stands there.
pub open spec fn without_suffixes(s: Seq<char>, p: Seq<char>) -> Seq<char>
    decreases s.len(),
{
    if p.len() > 0 && p.is_suffix_of(s) {
        without_suffixes(s.take(s.len() - p.len()), p)
    } else {
        s
    }
}

pub(crate) fn strip_suffixes<'a>(s: &'a str, p: &str) -> (r: &'a str)
    ensures
        r@ == without_suffixes(s@, p@),
{
    if p.is_empty() {
        return s;
    }
    let mut rest: &str = s;
    loop
        invariant
            p@.len() > 0,
            without_suffixes(rest@, p@) == without_suffixes(s@, p@),
        decreases rest@.len(),
    {
        match strip_suffix(rest, p) {
            Some(shorter) => {
                rest = shorter;
            },
            None => {
                return rest;
            },
        }
    }
}

/// `s` without the character `c`.
pub open spec fn without(s: Seq<char>, c: char) -> Seq<char>
    decreases s.len(),
{
    if s.len() == 0 {
        Seq::empty()
    } else if s.last() == c {
        without(s.drop_last(), c)
    } else {
        without(s.drop_last(), c).push(s.last())
    }
}

pub(crate) fn remove_char(s: &str, c: char) -> (r: String)
    ensures
        r@ == without(s@, c),
{
    let v = chars(s);
    let mut r = String::new();
    let mut i: usize = 0;
    while i < v.len()
        invariant
            i <= v.len(),
            v@ == s@,
            r@ == without(s@.take(i as int), c),
        decreases v.len() - i,
    {
        assert(s@.take(i + 1).drop_last() =~= s@.take(i as int));
        if v[i] != c {
            r.push(v[i]);
        }
        i = i + 1;
    }
    assert(s@.take(i as int) =~= s@);
    r
}

/// `s` with a line feed for each carriage return and line feed.
pub open spec fn line_feeds(s: Seq<char>) -> Seq<char>
    decreases s.len(),
{
    if s.len() == 0 {
        Seq::empty()
    } else if s.len() >= 2 && s[0] == '\r' && s[1] == '\n' {
        seq!['\n'] + line_feeds(s.skip(2))
    } else {
        seq![s[0]] + line_feeds(s.skip(1))
    }
}

pub(crate) fn to_line_feeds(s: &str) -> (r: String)
    ensures
        r@ == line_feeds(s@),
{
    let v = chars(s);
    let mut r = String::new();
    let mut i: usize = 0;
    assert(s@.skip(0) =~= s@);
    assert(r@ + line_feeds(s@) =~= line_feeds(s@));
    while i < v.len()
        invariant
            i <= v.len(),
            v@ == s@,
            r@ + line_feeds(s@.skip(i as int)) == line_feeds(s@),
        decreases v.len() - i,
    {
        let ghost rest = s@.skip(i as int);
        let ghost before = r@;
        if v[i] == '\r' && v.len() - i >= 2 && v[i + 1] == '\n' {
            r.push('\n');
            assert(rest.skip(2) =~= s@.skip(i + 2));
            assert(r@ + line_feeds(s@.skip(i + 2)) =~= before + (seq!['\n'] + line_feeds(
                s@.skip(i + 2),
            )));
            i = i + 2;
        } else {
            r.push(v[i]);
            assert(rest.skip(1) =~= s@.skip(i + 1));
            assert(r@ + line_feeds(s@.skip(i + 1)) =~= before + (seq![rest[0]] + line_feeds(
                s@.skip(i + 1),
            )));
            i = i + 1;
        }
    }
    assert(r@ + line_feeds(s@.skip(i as int)) =~= r@);
    r
}

pub open spec fn ascii_digit(c: char) -> bool {
    '0' <= c <= '9'
}

pub open spec fn ascii_lower(c: char) -> char {
    if 'A' <= c <= 'Z' {
        (c as u8 + 32) as char
    } else {
        c
    }
}

pub open spec fn ascii_alphanumeric(c: char) -> bool {
    ascii_digit(c) || 'a' <= c <= 'z' || 'A' <= c <= 'Z'
}

pub(crate) fn is_digit(c: char) -> (r: bool)
    ensures
        r == ascii_digit(c),
{
    '0' <= c && c <= '9'
}

pub(crate) fn is_letter_or_digit(c: char) -> (r: bool)
    ensures
        r == ascii_alphanumeric(c),
{
    is_digit(c) || ('a' <= c && c <= 'z') || ('A' <= c && c <= 'Z')
}

pub(crate) fn lower(c: char) -> (r: char)
    ensures
        r == ascii_lower(c),
{
    if 'A' <= c && c <= 'Z' {
        ((c as u8) + 32) as char
    } else {
        c
    }
}

/// `s` with its ASCII letters in lower case.
pub open spec fn ascii_lowered(s: Seq<char>) -> Seq<char> {
    s.map_values(|c: char| ascii_lower(c))
}

pub(crate) fn to_ascii_lower(s: &str) -> (r: String)
    ensures
        r@ == ascii_lowered(s@),
{
    let v = chars(s);
    let mut r = String::new();
    let mut i: usize = 0;
    while i < v.len()
        invariant
            i <= v.len(),
            v@ == s@,
            r@ == ascii_lowered(s@).take(i as int),
        decreases v.len() - i,
    {
        r.push(lower(v[i]));
        i = i + 1;
        assert(r@ =~= ascii_lowered(s@).take(i as int));
    }
    assert(ascii_lowered(s@).take(i as int) =~= ascii_lowered(s@));
    r
}

/// Whether any character of `s` is an ASCII digit.
pub open spec fn some_digit(s: Seq<char>) -> bool {
    exists|i: int| 0 <= i < s.len() && ascii_digit(#[trigger] s[i])
}

pub(crate) fn has_digit(s: &str) -> (r: bool)
    ensures
        r == some_digit(s@),
{
    let v = chars(s);
    let mut i: usize = 0;
    while i < v.len()
        invariant
            i <= v.len(),
            v@ == s@,
            forall|j: int| 0 <= j < i ==> !ascii_digit(#[trigger] s@[j]),
        decreases v.len() - i,
    {
        if is_digit(v[i]) {
            assert(ascii_digit(s@[i as int]));
            return true;
        }
        i = i + 1;
    }
    false
}

} // verus!
