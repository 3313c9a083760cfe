//! Regular expressions, as the `regex` crate reads and matches them.
use vstd::prelude::*;
use crate::text::{text_of, trim, trimmed};

verus! {

/// A compiled regular expression of the `regex` crate.
#[verifier::external_type_specification]
#[verifier::external_body]
pub struct ExRegex(regex::Regex);

/// The groups of the first place where the expression `pattern` matches in `text`: the whole
/// match, then each group of the expression in the order of its opening parenthesis, `None` for one
/// that took no part. `None` where nothing matches, or where `pattern` is no regular expression.
pub uninterp spec fn captures_of(
    pattern: Seq<char>,
    text: Seq<char>,
) -> Option<Seq<Option<Seq<char>>>>;

/// The groups of each of the successive places, none overlapping another, where the expression
/// `pattern` matches in `text`.
pub uninterp spec fn matches_of(pattern: Seq<char>, text: Seq<char>) -> Seq<
    Seq<Option<Seq<char>>>,
>;

/// What the groups of a regular expression matched.
pub struct Groups {
    pub parts: Vec<Option<String>>,
}

impl View for Groups {
    type V = Seq<Option<Seq<char>>>;

    open spec fn view(&self) -> Seq<Option<Seq<char>>> {
        self.parts@.map_values(|p: Option<String>| text_of(p))
    }
}

/// The text of group `i`, if there is such a group and it took part.
pub open spec fn group(g: Seq<Option<Seq<char>>>, i: int) -> Option<Seq<char>> {
    if 0 <= i < g.len() {
        g[i]
    } else {
        None
    }
}

impl Groups {
    pub fn get(&self, i: usize) -> (r: Option<&str>)
        ensures
            match r {
                Some(s) => group(self@, i as int) == Some(s@),
                None => group(self@, i as int) is None,
            },
    {
        if i < self.parts.len() {
            assert(self@[i as int] == text_of(self.parts@[i as int]));
            match &self.parts[i] {
                Some(s) => Some(s.as_str()),
                None => None,
            }
        } else {
            None
        }
    }

    /// The text of group `i`, owned.
    pub fn text(&self, i: usize) -> (r: Option<String>)
        ensures
            text_of(r) == group(self@, i as int),
    {
        match self.get(i) {
            Some(s) => Some(s.to_owned()),
            None => None,
        }
    }
}

/// The contents of what a search gave back.
pub open spec fn groups_of(o: Option<Groups>) -> Option<Seq<Option<Seq<char>>>> {
    match o {
        Some(g) => Some(g@),
        None => None,
    }
}

/// The text of group `i` of a match, if there is one and the group took part.
pub open spec fn group_in(c: Option<Seq<Option<Seq<char>>>>, i: int) -> Option<Seq<char>> {
    match c {
        Some(g) => group(g, i),
        None => None,
    }
}

pub fn group_text(c: &Option<Groups>, i: usize) -> (r: Option<String>)
    ensures
        text_of(r) == group_in(groups_of(*c), i as int),
{
    match c {
        Some(g) => g.text(i),
        None => None,
    }
}

/// A text without white space at its ends, unless nothing else is in it.
pub open spec fn not_blank(o: Option<Seq<char>>) -> Option<Seq<char>> {
    match o {
        Some(s) => if trimmed(s).len() == 0 {
            None
        } else {
            Some(trimmed(s))
        },
        None => None,
    }
}

/// The text of group `i` of a match without white space at its ends, unless it is blank.
pub open spec fn field_in(c: Option<Seq<Option<Seq<char>>>>, i: int) -> Option<Seq<char>> {
    not_blank(group_in(c, i))
}

pub fn field_text(c: &Option<Groups>, i: usize) -> (r: Option<String>)
    ensures
        text_of(r) == field_in(groups_of(*c), i as int),
{
    match group_text(c, i) {
        Some(s) => {
            let t = trim(&s);
            if t.is_empty() {
                None
            } else {
                Some(t.to_owned())
            }
        },
        None => None,
    }
}

/// A regular expression that can be searched for. `Pattern::new` alone makes one, so what is
/// compiled is always its own source.
pub struct Pattern {
    source: String,
    compiled: Option<regex::Regex>,
}

impl View for Pattern {
    type V = Seq<char>;

    closed spec fn view(&self) -> Seq<char> {
        self.source@
    }
}

impl Pattern {
    /// `regex::Regex::new` compiles the source. A source that it refuses gives a pattern that
    /// matches nowhere.
    #[verifier::external_body]
    pub(crate) fn new(source: &str) -> (r: Pattern)
        ensures
            r@ == source@,
    {
        Pattern { source: source.to_owned(), compiled: regex::Regex::new(source).ok() }
    }

    /// `regex::Regex::captures` searches for the first match. What it finds depends on the
    /// expression and the text alone, and is given a name here.
    #[verifier::external_body]
    pub(crate) fn captures(&self, text: &str) -> (r: Option<Groups>)
        ensures
            groups_of(r) == captures_of(self@, text@),
    {
        let found = self.compiled.as_ref()?.captures(text)?;
        Some(Groups { parts: found.iter().map(|g| g.map(|m| m.as_str().to_owned())).collect() })
    }

    /// `regex::Regex::is_match` tells whether there is a match anywhere, that is, whether
    /// `regex::Regex::captures` finds one.
    #[verifier::external_body]
    pub(crate) fn is_match(&self, text: &str) -> (r: bool)
        ensures
            r == (captures_of(self@, text@) is Some),
    {
        self.compiled.as_ref().is_some_and(|re| re.is_match(text))
    }

    /// `regex::Regex::captures_iter` yields the groups of each successive match. What it yields
    /// depends on the expression and the text alone, and is given a name here.
    #[verifier::external_body]
    pub(crate) fn captures_iter(&self, text: &str) -> (r: Vec<Groups>)
        ensures
            r@.map_values(|g: Groups| g@) == matches_of(self@, text@),
    {
        let found = self.compiled.iter().flat_map(|re| re.captures_iter(text));
        found.map(|c| Groups {
            parts: c.iter().map(|g| g.map(|m| m.as_str().to_owned())).collect(),
        }).collect()
    }
}

} // verus!
