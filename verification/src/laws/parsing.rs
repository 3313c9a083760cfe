//! What holds of the parts of a report that are read out of its lines.
use vstd::prelude::*;
use crate::laws::wording::{
    all_in, law_around_a_sign, law_no_sign, law_pieces_one_by_one, law_trimmed_at_both_ends,
};
use crate::model::{id_key, ExcView, Loader, ModView, ReportView, SectionView};
use crate::number::{decimal, law_decimal_reads_back, lemma_decimal};
use crate::pattern::{captures_of, field_in, group_in};
use crate::report::{
    barred_mod, closed_sections, dashed, exceptions_through, frames_through, heap_max_made,
    heap_max_of, kind_of, line_in, loader_made, loader_version_made, megabytes, mod_made,
    mods_through, report_of, sections_through, spaced_mod, title_of, version_listed, warnings_for,
    xmx_among, xmx_made, xmx_of, LineKindView, EXCEPTION, FRAME, KEY_VALUE, MOD_HEADER, SECTION,
};
use crate::text::{ascii_digit, has, pieces, some_digit, trimmed, without, words, CharSet};

verus! {

/// Lines one below the other, each with a line feed.
pub open spec fn stacked(lines: Seq<Seq<char>>) -> Seq<char>
    decreases lines.len(),
{
    if lines.len() == 0 {
        Seq::empty()
    } else {
        stacked(lines.drop_last()) + lines.last() + seq!['\n']
    }
}

/// A section starts at its heading and holds the lines below it, down to the next heading; the
/// sections before it stay as they are.
pub proof fn law_section_holds_the_lines_below(
    before: Seq<Seq<char>>,
    heading: Seq<char>,
    name: Seq<char>,
    below: Seq<Seq<char>>,
)
    requires
        title_of(heading) == Some(name),
        forall|k: int| 0 <= k < below.len() ==> title_of(#[trigger] below[k]) is None,
    ensures
        closed_sections(sections_through(before.push(heading) + below)) == closed_sections(
            sections_through(before),
        ).push(SectionView { name, body: stacked(below) }),
{
    lemma_below(before, heading, name, below);
}

proof fn lemma_below(
    before: Seq<Seq<char>>,
    heading: Seq<char>,
    name: Seq<char>,
    below: Seq<Seq<char>>,
)
    requires
        title_of(heading) == Some(name),
        forall|k: int| 0 <= k < below.len() ==> title_of(#[trigger] below[k]) is None,
    ensures
        sections_through(before.push(heading) + below).done == closed_sections(
            sections_through(before),
        ),
        sections_through(before.push(heading) + below).open == Some(
            SectionView { name, body: stacked(below) },
        ),
    decreases below.len(),
{
    let top = before.push(heading);
    let all = top + below;
    if below.len() == 0 {
        assert(all =~= top);
        assert(top.drop_last() =~= before);
        assert(top.last() == heading);
    } else {
        let less = below.drop_last();
        assert forall|k: int| 0 <= k < less.len() implies title_of(#[trigger] less[k]) is None by {
            assert(less[k] == below[k]);
        }
        lemma_below(before, heading, name, less);
        assert(all.drop_last() =~= top + less);
        assert(all.last() == below.last());
        assert(title_of(below[below.len() - 1]) is None);
        reveal_strlit("\n");
        assert("\n"@ =~= seq!['\n']);
    }
}

/// Lines without a heading make no section.
pub proof fn law_no_heading_no_section(lines: Seq<Seq<char>>)
    requires
        forall|k: int| 0 <= k < lines.len() ==> title_of(#[trigger] lines[k]) is None,
    ensures
        closed_sections(sections_through(lines)).len() == 0,
{
    lemma_no_section(lines);
}

proof fn lemma_no_section(lines: Seq<Seq<char>>)
    requires
        forall|k: int| 0 <= k < lines.len() ==> title_of(#[trigger] lines[k]) is None,
    ensures
        sections_through(lines).open is None,
        sections_through(lines).done.len() == 0,
    decreases lines.len(),
{
    if lines.len() > 0 {
        let less = lines.drop_last();
        assert forall|k: int| 0 <= k < less.len() implies title_of(#[trigger] less[k]) is None by {
            assert(less[k] == lines[k]);
        }
        lemma_no_section(less);
        assert(title_of(lines[lines.len() - 1]) is None);
    }
}

/// The line of a place in a source file is the number behind the last colon; without a colon there
/// is none.
pub proof fn law_line_of_a_place(file: Seq<char>, n: nat)
    requires
        n <= u32::MAX,
    ensures
        line_in(file + seq![':'] + decimal(n)) == Some(n as u32),
        !file.contains(':') ==> line_in(file) is None,
{
    let digits = decimal(n);
    let place = file + seq![':'] + digits;
    lemma_decimal(n);
    assert(all_in(digits, CharSet::Just(':'), false)) by {
        assert forall|k: int| 0 <= k < digits.len() implies CharSet::Just(':').has(
            #[trigger] digits[k],
        ) == false by {
            assert(ascii_digit(digits[k]));
        }
    }
    law_around_a_sign(file, ':', digits, CharSet::Just(':'));
    assert(place[file.len() as int] == ':');
    assert(place.contains(':'));
    let none = Seq::<char>::empty();
    assert(ascii_digit(digits[0]) && ascii_digit(digits[digits.len() - 1]));
    law_trimmed_at_both_ends(none, digits, none, CharSet::White, true);
    assert(none + digits + none =~= digits);
    law_decimal_reads_back(n, u32::MAX as nat);
}

/// A line adds a frame exactly where it speaks of a call and names a class and a method. The frame
/// has them, with the place and the jar that are given and not blank, and stands behind the frames
/// before.
pub proof fn law_frame_of_a_line(before: Seq<Seq<char>>, line: Seq<char>)
    ensures
        ({
            let c = captures_of(FRAME@, line);
            let old_frames = frames_through(before);
            let frames = frames_through(before.push(line));
            if has(line, "at "@) && group_in(c, 1) is Some && group_in(c, 2) is Some {
                &&& frames.len() == old_frames.len() + 1
                &&& old_frames =~= frames.drop_last()
                &&& frames.last().class == group_in(c, 1)->0
                &&& frames.last().method == group_in(c, 2)->0
                &&& frames.last().location == field_in(c, 3)
                &&& frames.last().jar == field_in(c, 4)
                &&& frames.last().index == frames.len()
                &&& frames.last().location is None ==> frames.last().line is None
                &&& frames.last().location matches Some(place) ==> frames.last().line == line_in(
                    place,
                )
            } else {
                frames == old_frames
            }
        }),
{
    let lines = before.push(line);
    assert(lines.drop_last() =~= before);
    assert(lines.last() == line);
}

/// What is read of the lines above does not change with the lines below.
pub proof fn law_reading_goes_down(a: Seq<Seq<char>>, b: Seq<Seq<char>>)
    ensures
        frames_through(a).is_prefix_of(frames_through(a + b)),
        exceptions_through(a).is_prefix_of(exceptions_through(a + b)),
        mods_through(a).mods.is_prefix_of(mods_through(a + b).mods),
    decreases b.len(),
{
    let all = a + b;
    if b.len() == 0 {
        assert(all =~= a);
        assert(frames_through(a) =~= frames_through(a).subrange(0, frames_through(a).len() as int));
        assert(exceptions_through(a) =~= exceptions_through(a).subrange(
            0,
            exceptions_through(a).len() as int,
        ));
        assert(mods_through(a).mods =~= mods_through(a).mods.subrange(
            0,
            mods_through(a).mods.len() as int,
        ));
    } else {
        let less = a + b.drop_last();
        assert(all.drop_last() =~= less);
        law_reading_goes_down(a, b.drop_last());
        lemma_longer(frames_through(a), frames_through(less), frames_through(all));
        lemma_longer(exceptions_through(a), exceptions_through(less), exceptions_through(all));
        lemma_longer(mods_through(a).mods, mods_through(less).mods, mods_through(all).mods);
    }
}

proof fn lemma_longer<A>(a: Seq<A>, b: Seq<A>, c: Seq<A>)
    requires
        a.is_prefix_of(b),
        c == b || (c.len() == b.len() + 1 && c.drop_last() =~= b),
    ensures
        a.is_prefix_of(c),
{
    if c != b {
        assert(c.subrange(0, a.len() as int) =~= b.subrange(0, a.len() as int)) by {
            assert forall|k: int| 0 <= k < a.len() implies c[k] == b[k] by {
                assert(c.drop_last()[k] == b[k]);
            }
        }
    }
}

/// Whether a line, without the white space around it, is one of a trace and names no exception.
pub open spec fn of_a_trace(rest: Seq<char>) -> bool {
    "at "@.is_prefix_of(rest) || "..."@.is_prefix_of(rest)
}

/// A line that names an exception adds it, unless it is there already: with the class and the
/// message, and as a cause exactly where `Caused by: ` stands in front. Calls and dots name none.
pub proof fn law_exception_of_a_line(before: Seq<Seq<char>>, line: Seq<char>)
    ensures
        ({
            let cause = "Caused by: "@.is_prefix_of(trimmed(line));
            let rest = if cause {
                trimmed(trimmed(line).skip("Caused by: "@.len() as int))
            } else {
                trimmed(line)
            };
            let c = captures_of(EXCEPTION@, rest);
            let old_excs = exceptions_through(before);
            let excs = exceptions_through(before.push(line));
            if !of_a_trace(rest) && group_in(c, 1) is Some {
                let e = ExcView {
                    fqcn: group_in(c, 1)->0,
                    message: field_in(c, 2),
                    caused_by: cause,
                };
                &&& excs.contains(e)
                &&& old_excs.contains(e) ==> excs == old_excs
                &&& !old_excs.contains(e) ==> excs == old_excs.push(e)
            } else {
                excs == old_excs
            }
        }),
{
    let lines = before.push(line);
    assert(lines.drop_last() =~= before);
    assert(lines.last() == line);
    let excs = exceptions_through(lines);
    if excs.len() > 0 {
        assert(excs.contains(excs[excs.len() - 1]));
    }
}

/// The entry of a mod between bars: the file, the name, the id and the version, each without white
/// space around it. The fields behind the version do not count.
pub proof fn law_entry_between_bars(
    file: Seq<char>,
    name: Seq<char>,
    id: Seq<char>,
    version: Seq<char>,
    rest: Seq<char>,
)
    requires
        !file.contains('|'),
        !name.contains('|'),
        !id.contains('|'),
        !version.contains('|'),
    ensures
        ({
            let four = file + seq!['|'] + (name + seq!['|'] + (id + seq!['|'] + version));
            let more = file + seq!['|'] + (name + seq!['|'] + (id + seq!['|'] + (version + seq!['|']
                + rest)));
            let entry = if trimmed(id).len() == 0 || trimmed(version).len() == 0 {
                None
            } else {
                Some(
                    ModView {
                        id: trimmed(id),
                        name: trimmed(name),
                        version: trimmed(version),
                        file: if trimmed(file).len() == 0 {
                            None
                        } else {
                            Some(trimmed(file))
                        },
                    },
                )
            };
            barred_mod(four) == entry && barred_mod(more) == entry
        }),
{
    let set = CharSet::Just('|');
    lemma_no_bar(file);
    lemma_no_bar(name);
    lemma_no_bar(id);
    lemma_no_bar(version);
    law_no_sign(version, set);
    law_pieces_one_by_one(id, '|', version, set);
    law_pieces_one_by_one(name, '|', id + seq!['|'] + version, set);
    law_pieces_one_by_one(file, '|', name + seq!['|'] + (id + seq!['|'] + version), set);
    let four = file + seq!['|'] + (name + seq!['|'] + (id + seq!['|'] + version));
    let a = pieces(four, set);
    assert(a =~= seq![file, name, id, version]);
    let end = version + seq!['|'] + rest;
    law_pieces_one_by_one(version, '|', rest, set);
    law_pieces_one_by_one(id, '|', end, set);
    law_pieces_one_by_one(name, '|', id + seq!['|'] + end, set);
    law_pieces_one_by_one(file, '|', name + seq!['|'] + (id + seq!['|'] + end), set);
    let more = file + seq!['|'] + (name + seq!['|'] + (id + seq!['|'] + end));
    let b = pieces(more, set);
    assert(b =~= seq![file, name, id, version] + pieces(rest, set));
    assert(b[0] == file && b[1] == name && b[2] == id && b[3] == version);
}

/// With one bar fewer there is no file in front, and with fewer still there is no entry.
pub proof fn law_entry_without_a_file(name: Seq<char>, id: Seq<char>, version: Seq<char>)
    requires
        !name.contains('|'),
        !id.contains('|'),
        !version.contains('|'),
    ensures
        barred_mod(name + seq!['|'] + (id + seq!['|'] + version)) == (if trimmed(id).len() == 0
            || trimmed(version).len() == 0 {
            None
        } else {
            Some(
                ModView {
                    id: trimmed(id),
                    name: trimmed(name),
                    version: trimmed(version),
                    file: None,
                },
            )
        }),
        barred_mod(id + seq!['|'] + version) is None,
        barred_mod(version) is None,
{
    let set = CharSet::Just('|');
    lemma_no_bar(name);
    lemma_no_bar(id);
    lemma_no_bar(version);
    law_no_sign(version, set);
    law_pieces_one_by_one(id, '|', version, set);
    law_pieces_one_by_one(name, '|', id + seq!['|'] + version, set);
    let a = pieces(name + seq!['|'] + (id + seq!['|'] + version), set);
    assert(a =~= seq![name, id, version]);
    let b = pieces(id + seq!['|'] + version, set);
    assert(b.len() == 2);
}

proof fn lemma_no_bar(s: Seq<char>)
    requires
        !s.contains('|'),
    ensures
        all_in(s, CharSet::Just('|'), false),
{
    assert forall|k: int| 0 <= k < s.len() implies CharSet::Just('|').has(#[trigger] s[k])
        == false by {
        assert(s.contains(s[k]));
    }
}

/// The entry of a mod in words: an id, with `.jar` behind it or not, and a version, which has a
/// digit.
pub proof fn law_entry_in_words(body: Seq<char>)
    ensures
        words(body).len() < 2 ==> spaced_mod(body) is None,
        words(body).len() >= 2 ==> (spaced_mod(body) is Some <==> some_digit(words(body)[1])),
        spaced_mod(body) matches Some(m) ==> {
            &&& m.version == words(body)[1]
            &&& m.name == m.id
            &&& m.file is None
            &&& words(body)[0] == m.id + ".jar"@ || (words(body)[0] == m.id
                && !".jar"@.is_suffix_of(m.id))
        },
{
    if spaced_mod(body) is Some {
        let first = words(body)[0];
        if ".jar"@.is_suffix_of(first) {
            assert(first =~= first.take(first.len() - ".jar"@.len()) + ".jar"@);
        }
    }
}

/// Which way an entry is read: bars come before brackets, brackets before words, and a key with a
/// value is no entry in words. Comments and blank entries are none at all. Commas at the end do not
/// count.
pub proof fn law_ways_to_read_an_entry(
    line: Seq<char>,
    body: Seq<char>,
    paren: Option<Seq<Option<Seq<char>>>>,
    pair: bool,
)
    requires
        body == crate::report::entry_body(line),
        body.len() > 0,
    ensures
        "//"@.is_prefix_of(body) ==> mod_made(line, paren, pair) is None,
        !"//"@.is_prefix_of(body) && body.contains('|') ==> mod_made(line, paren, pair)
            == barred_mod(body),
        !"//"@.is_prefix_of(body) && !body.contains('|') && group_in(paren, 1) is Some && group_in(
            paren,
            2,
        ) is Some ==> mod_made(line, paren, pair) == Some(
            ModView {
                id: group_in(paren, 1)->0,
                name: group_in(paren, 1)->0,
                version: group_in(paren, 2)->0,
                file: None,
            },
        ),
        !"//"@.is_prefix_of(body) && !body.contains('|') && (group_in(paren, 1) is None || group_in(
            paren,
            2,
        ) is None) ==> mod_made(line, paren, pair) == (if pair {
            None
        } else {
            spaced_mod(body)
        }),
{
}

/// What kind of line a line is: the head of a mod list before a heading, a heading before a blank
/// line. A line without bars is an entry only where it is indented and is no key with a value.
pub proof fn law_kinds_of_lines(line: Seq<char>)
    ensures
        kind_of(line) is Header <==> captures_of(MOD_HEADER@, line) is Some,
        kind_of(line) is Heading <==> captures_of(MOD_HEADER@, line) is None && captures_of(
            SECTION@,
            line,
        ) is Some,
        kind_of(line) is Blank <==> captures_of(MOD_HEADER@, line) is None && captures_of(
            SECTION@,
            line,
        ) is None && trimmed(line).len() == 0,
        kind_of(line) is Entry ==> line.contains('|') || "\t"@.is_prefix_of(line)
            || "  "@.is_prefix_of(line),
        kind_of(line) is Entry && !line.contains('|') ==> captures_of(KEY_VALUE@, trimmed(line)) is None,
        line.contains('|') && trimmed(line).len() > 0 ==> !(kind_of(line) is Foreign),
        trimmed(line).len() > 0 && ("\t"@.is_prefix_of(line) || "  "@.is_prefix_of(line))
            && captures_of(KEY_VALUE@, trimmed(line)) is None ==> !(kind_of(line) is Foreign),
{
}

/// A list of mods is open from its head on: down to a heading or a line that is no entry.
pub open spec fn list_open(lines: Seq<Seq<char>>, h: int) -> bool {
    &&& 0 <= h < lines.len()
    &&& kind_of(lines[h]) is Header
    &&& forall|k: int|
        h < k < lines.len() ==> !(kind_of(#[trigger] lines[k]) is Heading) && !(kind_of(
            lines[k],
        ) is Foreign)
}

proof fn lemma_open(lines: Seq<Seq<char>>)
    ensures
        mods_through(lines).open <==> exists|h: int| list_open(lines, h),
    decreases lines.len(),
{
    if lines.len() > 0 {
        let less = lines.drop_last();
        let n = lines.len() - 1;
        lemma_open(less);
        assert(lines[n] == lines.last());
        if exists|h: int| list_open(less, h) {
            let h = choose|h: int| list_open(less, h);
            if !(kind_of(lines[n]) is Heading) && !(kind_of(lines[n]) is Foreign) {
                assert(lines[h] == less[h]);
                assert forall|k: int| h < k < lines.len() implies !(kind_of(
                    #[trigger] lines[k],
                ) is Heading) && !(kind_of(lines[k]) is Foreign) by {
                    if k < n {
                        assert(lines[k] == less[k]);
                    }
                }
                assert(list_open(lines, h));
            }
        }
        if kind_of(lines[n]) is Header {
            assert(list_open(lines, n));
        }
        if exists|h: int| list_open(lines, h) {
            let h = choose|h: int| list_open(lines, h);
            if h < n {
                assert(less[h] == lines[h]);
                assert forall|k: int| h < k < less.len() implies !(kind_of(
                    #[trigger] less[k],
                ) is Heading) && !(kind_of(less[k]) is Foreign) by {
                    assert(less[k] == lines[k]);
                }
                assert(list_open(less, h));
                assert(!(kind_of(lines[n]) is Heading));
            } else {
                assert(kind_of(lines[n]) is Header);
            }
        }
    } else {
        assert forall|h: int| !list_open(lines, h) by {}
    }
}

/// A line adds a mod exactly where it is an entry of one in an open list and no mod of that id is
/// listed yet: the first of an id stays.
pub proof fn law_mod_of_a_line(before: Seq<Seq<char>>, line: Seq<char>)
    ensures
        ({
            let mods = mods_through(before.push(line)).mods;
            let old_mods = mods_through(before).mods;
            let open = exists|h: int| list_open(before, h);
            match kind_of(line) {
                LineKindView::Entry(Some(m)) => if open && forall|k: int|
                    0 <= k < old_mods.len() ==> (#[trigger] old_mods[k]).id != m.id {
                    mods == old_mods.push(m)
                } else {
                    mods == old_mods
                },
                _ => mods == old_mods,
            }
        }),
{
    lemma_open(before);
    let lines = before.push(line);
    assert(lines.drop_last() =~= before);
    assert(lines.last() == line);
}

/// Whether a mod of the list has an id of that key.
pub open spec fn lists_key(mods: Seq<ModView>, key: Seq<char>) -> bool {
    exists|i: int| 0 <= i < mods.len() && id_key((#[trigger] mods[i]).id) == key
}

/// The mod list tells the loader, whatever the text says, and NeoForge before Forge. Without it in
/// the list, the text tells: NeoForge before Forge, and Forge before Fabric.
pub proof fn law_loader(lower: Seq<char>, mods: Seq<ModView>)
    ensures
        lists_key(mods, "neoforge"@) ==> loader_made(lower, mods) == Loader::NeoForge,
        lists_key(mods, "forge"@) && !lists_key(mods, "neoforge"@) ==> loader_made(lower, mods)
            == Loader::Forge,
        !lists_key(mods, "neoforge"@) && !lists_key(mods, "forge"@) ==> {
            let neo = has(lower, "neoforge"@) || has(lower, "neo-forge"@);
            let forge = has(lower, "minecraftforge"@) || has(lower, "modlauncher"@) || has(
                lower,
                "forge-1."@,
            );
            let fabric = has(lower, "fabricloader"@) || has(lower, "net.fabricmc"@);
            &&& neo ==> loader_made(lower, mods) == Loader::NeoForge
            &&& !neo && forge ==> loader_made(lower, mods) == Loader::Forge
            &&& !neo && !forge && fabric ==> loader_made(lower, mods) == Loader::Fabric
            &&& !neo && !forge && !fabric ==> loader_made(lower, mods) == Loader::Unknown
        },
{
}

/// Whether mod `i` is the first with that key and a version.
pub open spec fn first_versioned(mods: Seq<ModView>, id: Seq<char>, i: int) -> bool {
    &&& 0 <= i < mods.len()
    &&& id_key(mods[i].id) == id_key(id)
    &&& mods[i].version.len() > 0
    &&& forall|k: int|
        0 <= k < i ==> id_key((#[trigger] mods[k]).id) != id_key(id) || mods[k].version.len() == 0
}

/// Whether no mod with that key has a version.
pub open spec fn none_versioned(mods: Seq<ModView>, id: Seq<char>) -> bool {
    forall|k: int|
        0 <= k < mods.len() ==> id_key((#[trigger] mods[k]).id) != id_key(id)
            || mods[k].version.len() == 0
}

proof fn lemma_versioned(mods: Seq<ModView>, id: Seq<char>, i: int)
    ensures
        first_versioned(mods, id, i) ==> version_listed(mods, id) == Some(mods[i].version),
        none_versioned(mods, id) ==> version_listed(mods, id) is None,
    decreases mods.len(),
{
    if mods.len() > 0 {
        let rest = mods.skip(1);
        if first_versioned(mods, id, i) && i > 0 {
            assert(rest[i - 1] == mods[i]);
            assert forall|k: int| 0 <= k < i - 1 implies id_key((#[trigger] rest[k]).id) != id_key(
                id,
            ) || rest[k].version.len() == 0 by {
                assert(rest[k] == mods[k + 1]);
            }
            assert(id_key(mods[0].id) != id_key(id) || mods[0].version.len() == 0);
            assert(first_versioned(rest, id, i - 1));
        }
        if none_versioned(mods, id) {
            assert(id_key(mods[0].id) != id_key(id) || mods[0].version.len() == 0);
            assert forall|k: int| 0 <= k < rest.len() implies id_key((#[trigger] rest[k]).id)
                != id_key(id) || rest[k].version.len() == 0 by {
                assert(rest[k] == mods[k + 1]);
            }
        }
        lemma_versioned(rest, id, i - 1);
    }
}

/// The loader's version is the one in the mod list, whatever the text says: that of the loader
/// itself, and Forge's where NeoForge has none.
pub proof fn law_loader_version_by_the_list(
    mods: Seq<ModView>,
    launched: Option<Seq<Option<Seq<char>>>>,
    jar: Option<Seq<Option<Seq<char>>>>,
    i: int,
    loader: Loader,
)
    ensures
        first_versioned(mods, "forge"@, i) ==> loader_version_made(
            mods,
            Loader::Forge,
            launched,
            jar,
        ) == Some(mods[i].version),
        first_versioned(mods, "neoforge"@, i) ==> loader_version_made(
            mods,
            Loader::NeoForge,
            launched,
            jar,
        ) == Some(mods[i].version),
        none_versioned(mods, "neoforge"@) && first_versioned(mods, "forge"@, i)
            ==> loader_version_made(mods, Loader::NeoForge, launched, jar) == Some(mods[i].version),
        first_versioned(mods, "forge"@, i) && (loader == Loader::Fabric || loader
            == Loader::Unknown) ==> loader_version_made(mods, loader, launched, jar) == Some(
            mods[i].version,
        ),
        none_versioned(mods, "forge"@) && first_versioned(mods, "neoforge"@, i) && (loader
            == Loader::Fabric || loader == Loader::Unknown) ==> loader_version_made(
            mods,
            loader,
            launched,
            jar,
        ) == Some(mods[i].version),
        none_versioned(mods, "forge"@) && none_versioned(mods, "neoforge"@) && first_versioned(
            mods,
            "fabricloader"@,
            i,
        ) && (loader == Loader::Fabric || loader == Loader::Unknown) ==> loader_version_made(
            mods,
            loader,
            launched,
            jar,
        ) == Some(mods[i].version),
{
    lemma_versioned(mods, "forge"@, i);
    lemma_versioned(mods, "neoforge"@, i);
    lemma_versioned(mods, "fabricloader"@, i);
}

/// Where the mod list gives no version, the launch arguments do, and where these do not, the name of
/// the loader's jar does, if what stands there has a digit.
pub proof fn law_loader_version_by_the_text(
    mods: Seq<ModView>,
    launched: Option<Seq<Option<Seq<char>>>>,
    jar: Option<Seq<Option<Seq<char>>>>,
    loader: Loader,
)
    requires
        none_versioned(mods, "forge"@),
        none_versioned(mods, "neoforge"@),
        none_versioned(mods, "fabricloader"@),
    ensures
        field_in(launched, 1) is Some ==> loader_version_made(mods, loader, launched, jar)
            == field_in(launched, 1),
        field_in(launched, 1) is None && group_in(jar, 1) is None ==> loader_version_made(
            mods,
            loader,
            launched,
            jar,
        ) is None,
        field_in(launched, 1) is None ==> (group_in(jar, 1) matches Some(v) ==> loader_version_made(
            mods,
            loader,
            launched,
            jar,
        ) == (if some_digit(v) {
            Some(v)
        } else {
            None
        })),
{
    lemma_versioned(mods, "forge"@, 0);
    lemma_versioned(mods, "neoforge"@, 0);
    lemma_versioned(mods, "fabricloader"@, 0);
}

/// Flags are the words that start with a dash, in their order.
pub proof fn law_flags_are_dashed_words(a: Seq<Seq<char>>, b: Seq<Seq<char>>, w: Seq<char>)
    ensures
        dashed(a + b) == dashed(a) + dashed(b),
        w.len() > 0 && w[0] == '-' ==> dashed(seq![w]) == seq![w],
        w.len() == 0 || w[0] != '-' ==> dashed(seq![w]).len() == 0,
    decreases b.len(),
{
    let one = seq![w];
    assert(one.drop_last() =~= Seq::<Seq<char>>::empty());
    assert(dashed(one.drop_last()) =~= Seq::<Seq<char>>::empty());
    assert(one.last() == w);
    reveal_strlit("-");
    assert("-"@ =~= seq!['-']);
    if w.len() > 0 {
        assert(w.subrange(0, 1)[0] == w[0]);
        if w[0] == '-' {
            assert(w.subrange(0, 1) =~= "-"@);
            assert(dashed(one) =~= seq![w]);
        }
    }
    if b.len() == 0 {
        assert(a + b =~= a);
        assert(dashed(a) + dashed(b) =~= dashed(a));
    } else {
        law_flags_are_dashed_words(a, b.drop_last(), w);
        assert((a + b).drop_last() =~= a + b.drop_last());
        assert(dashed(a + b) =~= dashed(a) + dashed(b));
    }
}

/// A gigabyte is 1024 megabytes, a megabyte 1024 kilobytes and a kilobyte 1024 bytes. What is not
/// whole is cut off, and what is too much is the most that can be told.
pub proof fn law_units_of_memory(n: nat, unit: Seq<char>)
    requires
        n <= u32::MAX,
    ensures
        unit == "g"@ || unit == "G"@ ==> megabytes(n, unit) == (if n * 1024 <= u32::MAX {
            n * 1024
        } else {
            u32::MAX as nat
        }),
        unit == "m"@ || unit == "M"@ ==> megabytes(n, unit) == n,
        unit == "k"@ || unit == "K"@ ==> megabytes(n, unit) * 1024 <= n < (megabytes(n, unit) + 1)
            * 1024,
        unit.len() == 0 ==> megabytes(n, unit) * 1048576 <= n < (megabytes(n, unit) + 1) * 1048576,
{
    reveal_strlit("g");
    reveal_strlit("G");
    reveal_strlit("k");
    reveal_strlit("K");
    reveal_strlit("m");
    reveal_strlit("M");
    reveal_strlit("");
    let u = crate::text::ascii_lowered(unit);
    assert(u.len() == unit.len());
    if unit.len() == 1 {
        assert(u[0] == crate::text::ascii_lower(unit[0]));
        assert(u =~= seq![crate::text::ascii_lower(unit[0])]);
        assert("g"@ =~= seq!['g']);
        assert("k"@ =~= seq!['k']);
        assert("g"@[0] == 'g');
        assert("k"@[0] == 'k');
        if unit == "G"@ {
            assert(u[0] == 'g');
        }
        if unit == "K"@ {
            assert(u[0] == 'k');
        }
        if unit == "M"@ {
            assert(u[0] == 'm');
        }
    }
    if unit.len() == 0 {
        assert(u =~= ""@);
    }
}

/// The limit of the heap is that of the first flag that gives one. A flag gives one where its number
/// can be read and comes to a megabyte at least.
pub proof fn law_first_limit_counts(flags: Seq<Seq<char>>, i: int)
    requires
        0 <= i < flags.len(),
        forall|k: int| 0 <= k < i ==> xmx_of(#[trigger] flags[k]) is None,
    ensures
        xmx_of(flags[i]) is Some ==> xmx_among(flags) == xmx_of(flags[i]),
        xmx_of(flags[i]) is None && i == flags.len() - 1 ==> xmx_among(flags) is None,
    decreases flags.len(),
{
    if i > 0 {
        let rest = flags.skip(1);
        assert(xmx_of(flags[0]) is None);
        assert(rest[i - 1] == flags[i]);
        assert forall|k: int| 0 <= k < i - 1 implies xmx_of(#[trigger] rest[k]) is None by {
            assert(rest[k] == flags[k + 1]);
        }
        law_first_limit_counts(rest, i - 1);
    } else if flags.len() == 1 {
        assert(flags.skip(1).len() == 0);
        assert(xmx_among(flags.skip(1)) is None);
    }
}

/// The limit that a flag gives, from its number and its unit.
pub proof fn law_limit_of_a_flag(c: Option<Seq<Option<Seq<char>>>>, n: nat, unit: Seq<char>)
    requires
        n <= u32::MAX,
        group_in(c, 1) == Some(decimal(n)),
        group_in(c, 2) == Some(unit),
    ensures
        megabytes(n, unit) > 0 && megabytes(n, unit) <= u32::MAX ==> xmx_made(c) is Some
            && xmx_made(c)->0 as nat == megabytes(n, unit),
        megabytes(n, unit) == 0 ==> xmx_made(c) is None,
{
    law_decimal_reads_back(n, u32::MAX as nat);
}

/// The most that the heap had is read with and without commas between the digits.
pub proof fn law_heap_with_commas(c: Option<Seq<Option<Seq<char>>>>, text: Seq<char>, n: nat)
    requires
        n <= u32::MAX,
        group_in(c, 1) == Some(text),
        without(text, ',') == decimal(n),
    ensures
        heap_max_made(c) == Some(n as u32),
{
    law_decimal_reads_back(n, u32::MAX as nat);
}

/// One warning for each thing that a report lacks, and no other.
pub proof fn law_warnings(r: ReportView, details: bool)
    ensures
        warnings_for(r, details).len() == (if r.description is None {
            1int
        } else {
            0
        }) + (if r.sections.len() == 0 {
            1int
        } else {
            0
        }) + (if r.frames.len() == 0 {
            1int
        } else {
            0
        }) + (if r.mods.len() == 0 {
            1int
        } else {
            0
        }) + (if r.xmx_mb is None {
            1int
        } else {
            0
        }) + (if !details {
            1int
        } else {
            0
        }) + (if r.loader == Loader::Unknown {
            1int
        } else {
            0
        }),
        r.description is None ==> warnings_for(r, details)[0]
            == "no \"Description:\" line (truncated report?)"@,
        r.loader == Loader::Unknown ==> warnings_for(r, details).last()
            == "could not tell the loader apart (Forge, Fabric, NeoForge?)"@,
        !details && r.loader != Loader::Unknown ==> warnings_for(r, details).last()
            == "no \"-- System Details --\" section"@,
        r.description is Some && r.sections.len() == 0 ==> warnings_for(r, details)[0]
            == "no \"-- ... --\" sections at all"@,
        r.description is Some && r.sections.len() > 0 && r.frames.len() == 0 ==> warnings_for(
            r,
            details,
        )[0] == "no \"at ...\" frames: nothing to read in the stacktrace"@,
        r.description is Some && r.sections.len() > 0 && r.frames.len() > 0 && r.mods.len() == 0
            ==> warnings_for(r, details)[0]
            == "no mod list (\"Mod List:\"): cannot cross-reference versions"@,
        details && r.loader != Loader::Unknown && r.xmx_mb is None ==> warnings_for(r, details).last()
            == "no \"-Xmx\" in the JVM Flags"@,
{
}

/// A report that is read is told by its parts: the limit of the heap by its flags, the loader by its
/// text and its mods, and the most that the heap had by its memory line. Nothing but the warnings
/// comes after that.
pub proof fn law_report_fits_together(raw: Seq<char>, source: Seq<char>)
    requires
        report_of(raw, source) is Ok,
    ensures
        ({
            let r = report_of(raw, source)->Ok_0;
            &&& r.xmx_mb == xmx_among(r.jvm_flags)
            &&& r.loader == loader_made(crate::text::lowercase(r.raw), r.mods)
            &&& r.memory_line is None ==> r.heap_max_mb is None
            &&& r.memory_line matches Some(line) ==> r.heap_max_mb == heap_max_of(line)
            &&& r.warnings == warnings_for(
                r,
                captures_of(crate::report::SYSTEM_DETAILS@, raw) is Some,
            )
        }),
{
}

/// A field that is found is given without white space around it, and never blank.
pub proof fn law_fields_are_not_blank(c: Option<Seq<Option<Seq<char>>>>, i: int)
    ensures
        field_in(c, i) matches Some(s) ==> s.len() > 0 && group_in(c, i) is Some && s == trimmed(
            group_in(c, i)->0,
        ),
        group_in(c, i) matches Some(s) ==> (trimmed(s).len() > 0 ==> field_in(c, i) is Some),
        group_in(c, i) is None ==> field_in(c, i) is None,
{
}

} // verus!
