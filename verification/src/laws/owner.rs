//! What holds of the classes that belong to mods.
use vstd::prelude::*;
use crate::laws::lookup::lemma_owner;
use crate::model::{
    claims_lowered, count_mods, id_key, key_among, mod_owning, platform_class, platform_id, ModView,
};
use crate::text::{
    all_ascii, ascii_alphanumeric, ascii_lower, ascii_lowered, at, has, lead, lemma_lead, lowercase,
    pieces, CharSet,
};

verus! {

/// Whether a whole part of a dotted name stands between `i` and `j`.
pub open spec fn segment(name: Seq<char>, i: int, j: int) -> bool {
    &&& 0 <= i <= j <= name.len()
    &&& i == 0 || name[i - 1] == '.'
    &&& j == name.len() || name[j] == '.'
    &&& forall|k: int| i <= k < j ==> #[trigger] name[k] != '.'
}

/// Whether the part of a dotted name between `i` and `j` compares equal to `id`.
pub open spec fn segment_is(name: Seq<char>, i: int, j: int, id: Seq<char>) -> bool {
    segment(name, i, j) && id_key(name.subrange(i, j)) == id_key(id)
}

/// Whether a class name, in lower case, speaks of a mod: by a part that compares equal to the mod's
/// id, or by holding the id's letters and digits in a row. Ids of the platform and ids of fewer than
/// three letters and digits do not count.
pub open spec fn speaks_of(lower: Seq<char>, m: ModView) -> bool {
    &&& !platform_id(m.id)
    &&& id_key(m.id).len() >= 3
    &&& (exists|i: int, j: int| segment_is(lower, i, j, m.id)) || (exists|a: Seq<char>, b: Seq<char>|
        lower == #[trigger] (a + id_key(m.id) + b))
}

proof fn lemma_segment_is_a_piece(s: Seq<char>, i: int, j: int)
    requires
        segment(s, i, j),
    ensures
        exists|p: int|
            0 <= p < pieces(s, CharSet::Just('.')).len() && #[trigger] pieces(
                s,
                CharSet::Just('.'),
            )[p] == s.subrange(i, j),
    decreases s.len(),
{
    let set = CharSet::Just('.');
    let all = pieces(s, set);
    let n = lead(s, set, false) as int;
    lemma_lead(s, set, false);
    if n >= s.len() {
        if i > 0 {
            assert(set.has(s[i - 1]));
        }
        if j < s.len() {
            assert(set.has(s[j]));
        }
        assert(s.subrange(i, j) =~= s);
        assert(all[0] == s.subrange(i, j));
    } else {
        let rest = s.skip(n + 1);
        if i == 0 {
            if j < n {
                assert(set.has(s[j]));
            }
            if n < j {
                assert(s[n] != '.');
            }
            assert(s.subrange(0, j) =~= s.take(n));
            assert(all[0] == s.subrange(i, j));
        } else {
            if i - 1 < n {
                assert(set.has(s[i - 1]));
            }
            let a = i - n - 1;
            let b = j - n - 1;
            assert(segment(rest, a, b)) by {
                assert forall|k: int| a <= k < b implies #[trigger] rest[k] != '.' by {
                    assert(rest[k] == s[k + n + 1]);
                }
            }
            lemma_segment_is_a_piece(rest, a, b);
            let more = pieces(rest, set);
            let p = choose|p: int|
                0 <= p < more.len() && #[trigger] more[p] == rest.subrange(a, b);
            assert(rest.subrange(a, b) =~= s.subrange(i, j));
            assert(all[p + 1] == more[p]);
        }
    }
}

proof fn lemma_piece_is_a_segment(s: Seq<char>, p: int)
    requires
        0 <= p < pieces(s, CharSet::Just('.')).len(),
    ensures
        exists|i: int, j: int|
            #[trigger] segment(s, i, j) && s.subrange(i, j) == pieces(s, CharSet::Just('.'))[p],
    decreases s.len(),
{
    let set = CharSet::Just('.');
    let all = pieces(s, set);
    let n = lead(s, set, false) as int;
    lemma_lead(s, set, false);
    if n >= s.len() {
        assert forall|k: int| 0 <= k < s.len() implies #[trigger] s[k] != '.' by {
            assert(!set.has(s[k]));
        }
        assert(segment(s, 0, s.len() as int));
        assert(s.subrange(0, s.len() as int) =~= all[p]);
    } else if p == 0 {
        assert forall|k: int| 0 <= k < n implies #[trigger] s[k] != '.' by {
            assert(!set.has(s[k]));
        }
        assert(segment(s, 0, n));
        assert(s.subrange(0, n) =~= all[p]);
    } else {
        let rest = s.skip(n + 1);
        lemma_piece_is_a_segment(rest, p - 1);
        let more = pieces(rest, set);
        let (a, b) = choose|a: int, b: int|
            #[trigger] segment(rest, a, b) && rest.subrange(a, b) == more[p - 1];
        let i = a + n + 1;
        let j = b + n + 1;
        assert(segment(s, i, j)) by {
            assert forall|k: int| i <= k < j implies #[trigger] s[k] != '.' by {
                assert(rest[k - n - 1] == s[k]);
            }
            if a > 0 {
                assert(rest[a - 1] == s[i - 1]);
            } else {
                assert(set.has(s[n]));
            }
            if b < rest.len() {
                assert(rest[b] == s[j]);
            }
        }
        assert(s.subrange(i, j) =~= rest.subrange(a, b));
        assert(all[p] == more[p - 1]);
    }
}

/// A class name claims a mod exactly where it speaks of it: a part that compares equal to the id is
/// enough, though signs keep the id's letters from standing in a row there, and so are these letters
/// in a row, though they are no whole part.
pub proof fn law_what_a_class_name_speaks_of(lower: Seq<char>, m: ModView)
    ensures
        claims_lowered(m, lower) <==> speaks_of(lower, m),
{
    let key = id_key(m.id);
    let parts = pieces(lower, CharSet::Just('.'));
    if key_among(parts, key) {
        let p = choose|p: int| 0 <= p < parts.len() && id_key(#[trigger] parts[p]) == key;
        lemma_piece_is_a_segment(lower, p);
        let (i, j) = choose|i: int, j: int|
            #[trigger] segment(lower, i, j) && lower.subrange(i, j) == parts[p];
        assert(segment_is(lower, i, j, m.id));
    }
    if exists|i: int, j: int| segment_is(lower, i, j, m.id) {
        let (i, j) = choose|i: int, j: int| segment_is(lower, i, j, m.id);
        lemma_segment_is_a_piece(lower, i, j);
        let p = choose|p: int|
            0 <= p < parts.len() && #[trigger] parts[p] == lower.subrange(i, j);
        assert(id_key(parts[p]) == key);
    }
    if has(lower, key) {
        let i = choose|i: int| at(lower, key, i);
        let a = lower.take(i);
        let b = lower.skip(i + key.len());
        assert(lower =~= a + key + b);
    }
    if exists|a: Seq<char>, b: Seq<char>| lower == #[trigger] (a + key + b) {
        let (a, b) = choose|a: Seq<char>, b: Seq<char>| lower == #[trigger] (a + key + b);
        assert(lower.subrange(a.len() as int, (a.len() + key.len()) as int) =~= key);
        assert(at(lower, key, a.len() as int));
    }
}

/// A class has an owner exactly where its name speaks of a mod of the list. The owner is one that it
/// speaks of; none that it speaks of has a longer key, and none before it in the list has one as
/// long.
pub proof fn law_owner_is_spoken_of(mods: Seq<ModView>, class: Seq<char>, j: int)
    requires
        0 <= j < mods.len(),
        speaks_of(lowercase(class), mods[j]),
    ensures
        mod_owning(mods, class) is Some,
        mods.contains(mod_owning(mods, class)->0),
        speaks_of(lowercase(class), mod_owning(mods, class)->0),
        id_key(mod_owning(mods, class)->0.id).len() >= id_key(mods[j].id).len(),
        (forall|k: int|
            0 <= k < mods.len() && k != j && speaks_of(lowercase(class), #[trigger] mods[k])
                ==> id_key(mods[k].id).len() < id_key(mods[j].id).len() || (k > j && id_key(
                mods[k].id,
            ).len() == id_key(mods[j].id).len())) ==> mod_owning(mods, class) == Some(mods[j]),
{
    let lower = lowercase(class);
    lemma_owner(mods, lower);
    law_what_a_class_name_speaks_of(lower, mods[j]);
    let m = mod_owning(mods, class)->0;
    law_what_a_class_name_speaks_of(lower, m);
    let i = choose|i: int|
        {
            &&& 0 <= i < mods.len()
            &&& #[trigger] mods[i] == m
            &&& forall|k: int|
                0 <= k < mods.len() && claims_lowered(#[trigger] mods[k], lower) ==> id_key(
                    mods[k].id,
                ).len() <= id_key(m.id).len()
            &&& forall|k: int|
                0 <= k < i && claims_lowered(#[trigger] mods[k], lower) ==> id_key(mods[k].id).len()
                    < id_key(m.id).len()
        };
    assert(mods[i] == m);
}

/// A class whose name speaks of no mod of the list has no owner.
pub proof fn law_no_owner_is_spoken_of(mods: Seq<ModView>, class: Seq<char>)
    requires
        forall|j: int| 0 <= j < mods.len() ==> !speaks_of(lowercase(class), #[trigger] mods[j]),
    ensures
        mod_owning(mods, class) is None,
{
    lemma_owner(mods, lowercase(class));
    if let Some(m) = mod_owning(mods, class) {
        law_what_a_class_name_speaks_of(lowercase(class), m);
    }
}

proof fn lemma_key_of_lower(s: Seq<char>)
    ensures
        id_key(ascii_lowered(s)) == id_key(s),
    decreases s.len(),
{
    if s.len() > 0 {
        let lower = ascii_lowered(s);
        lemma_key_of_lower(s.drop_last());
        assert(lower.drop_last() =~= ascii_lowered(s.drop_last()));
        let c = s.last();
        assert(lower.last() == ascii_lower(c));
        lemma_lower_again(c);
    }
}

proof fn lemma_lower_again(c: char)
    ensures
        ascii_lower(ascii_lower(c)) == ascii_lower(c),
        ascii_alphanumeric(ascii_lower(c)) == ascii_alphanumeric(c),
        (ascii_lower(c) == '.') == (c == '.'),
{
    if 'A' <= c <= 'Z' {
        assert((c as u8 + 32) as char == ascii_lower(c));
        let d = ascii_lower(c);
        assert(d as int == c as int + 32);
        assert('a' <= d <= 'z');
    }
}

/// A package or class whose name is a mod's id, but for capitals and signs such as underscores,
/// makes the class that mod's, or that of a mod with at least as long a key.
pub proof fn law_package_of_a_mod(mods: Seq<ModView>, class: Seq<char>, i: int, j: int, k: int)
    requires
        all_ascii(class),
        0 <= k < mods.len(),
        !platform_id(mods[k].id),
        id_key(mods[k].id).len() >= 3,
        segment(class, i, j),
        id_key(class.subrange(i, j)) == id_key(mods[k].id),
    ensures
        mod_owning(mods, class) is Some,
        id_key(mod_owning(mods, class)->0.id).len() >= id_key(mods[k].id).len(),
        mods.len() == 1 ==> mod_owning(mods, class) == Some(mods[k]),
{
    let lower = lowercase(class);
    assert(lower == ascii_lowered(class));
    assert(lower.subrange(i, j) =~= ascii_lowered(class.subrange(i, j)));
    lemma_key_of_lower(class.subrange(i, j));
    assert(segment(lower, i, j)) by {
        assert forall|n: int| i <= n < j implies #[trigger] lower[n] != '.' by {
            lemma_lower_again(class[n]);
        }
        if i > 0 {
            lemma_lower_again(class[i - 1]);
        }
        if j < class.len() {
            lemma_lower_again(class[j]);
        }
    }
    assert(segment_is(lower, i, j, mods[k].id));
    law_owner_is_spoken_of(mods, class, k);
}

/// Keys are built character by character: a letter or digit of ASCII in lower case, anything else
/// not at all.
pub proof fn law_key_of_a_text(a: Seq<char>, b: Seq<char>, c: char)
    ensures
        id_key(a + b) == id_key(a) + id_key(b),
        'a' <= c <= 'z' || '0' <= c <= '9' ==> id_key(seq![c]) == seq![c],
        'A' <= c <= 'Z' ==> id_key(seq![c]).len() == 1 && id_key(seq![c])[0] as int == c as int + 32,
        !('a' <= c <= 'z' || '0' <= c <= '9' || 'A' <= c <= 'Z') ==> id_key(seq![c]).len() == 0,
    decreases b.len(),
{
    let one = seq![c];
    assert(one.drop_last() =~= Seq::<char>::empty());
    assert(one.last() == c);
    assert(id_key(one.drop_last()) =~= Seq::<char>::empty());
    if b.len() == 0 {
        assert(a + b =~= a);
        assert(id_key(a) + id_key(b) =~= id_key(a));
    } else {
        law_key_of_a_text(a, b.drop_last(), c);
        assert((a + b).drop_last() =~= a + b.drop_last());
        assert(id_key(a + b) =~= id_key(a) + id_key(b));
    }
}

/// Which ids are the platform's: compared without regard to case and signs, those of the game, of
/// the loaders and of their parts, and no others.
pub proof fn law_ids_of_the_platform(id: Seq<char>, other: Seq<char>)
    ensures
        id_key(id) == id_key(other) ==> platform_id(id) == platform_id(other),
        id_key(id) == "minecraft"@ || id_key(id) == "forge"@ || id_key(id) == "neoforge"@ || id_key(
            id,
        ) == "neoforgefml"@ || id_key(id) == "fabric"@ || id_key(id) == "fabricloader"@ || id_key(id)
            == "java"@ || id_key(id) == "mcp"@ || id_key(id) == "fml"@ || id_key(id)
            == "modlauncher"@ || id_key(id) == "mixin"@ ==> platform_id(id),
        platform_id(id) ==> 3 <= id_key(id).len() <= 12,
{
    reveal_strlit("minecraft");
    reveal_strlit("forge");
    reveal_strlit("neoforge");
    reveal_strlit("neoforgefml");
    reveal_strlit("fabric");
    reveal_strlit("fabricloader");
    reveal_strlit("java");
    reveal_strlit("mcp");
    reveal_strlit("fml");
    reveal_strlit("modlauncher");
    reveal_strlit("mixin");
}

proof fn lemma_starts(a: Seq<char>, b: Seq<char>)
    ensures
        a.is_prefix_of(a + b),
{
    assert((a + b).subrange(0, a.len() as int) =~= a);
}

/// Every class in a package of Java, of the game, of the loader or of their libraries is the
/// platform's, whatever comes behind the package's name.
pub proof fn law_packages_of_the_platform(rest: Seq<char>)
    ensures
        platform_class("java."@ + rest),
        platform_class("javax."@ + rest),
        platform_class("jdk."@ + rest),
        platform_class("sun."@ + rest),
        platform_class("com.sun."@ + rest),
        platform_class("net.minecraft."@ + rest),
        platform_class("net.minecraftforge."@ + rest),
        platform_class("cpw.mods."@ + rest),
        platform_class("com.mojang."@ + rest),
        platform_class("org.spongepowered."@ + rest),
        platform_class("org.lwjgl"@ + rest),
        platform_class("io.netty"@ + rest),
        platform_class("it.unimi.dsi"@ + rest),
        platform_class("org.apache."@ + rest),
{
    lemma_starts("java."@, rest);
    lemma_starts("javax."@, rest);
    lemma_starts("jdk."@, rest);
    lemma_starts("sun."@, rest);
    lemma_starts("com.sun."@, rest);
    lemma_starts("net.minecraft."@, rest);
    lemma_starts("net.minecraftforge."@, rest);
    lemma_starts("cpw.mods."@, rest);
    lemma_starts("com.mojang."@, rest);
    lemma_starts("org.spongepowered."@, rest);
    lemma_starts("org.lwjgl"@, rest);
    lemma_starts("io.netty"@, rest);
    lemma_starts("it.unimi.dsi"@, rest);
    lemma_starts("org.apache."@, rest);
}

/// A class is the platform's by the front of its name alone: what holds of a name holds of every
/// longer name, and a name is in one of these packages or not the platform's.
pub proof fn law_platform_by_the_front(class: Seq<char>, rest: Seq<char>)
    ensures
        platform_class(class) ==> platform_class(class + rest),
        platform_class(class) ==> {
            ||| class[0] == 'j'
            ||| class[0] == 's'
            ||| "com."@.is_prefix_of(class)
            ||| "net.minecraft"@.is_prefix_of(class)
            ||| "cpw.mods."@.is_prefix_of(class)
            ||| "org."@.is_prefix_of(class)
            ||| "io.netty"@.is_prefix_of(class)
            ||| "it.unimi.dsi"@.is_prefix_of(class)
        },
{
    if platform_class(class) {
        lemma_front("java."@, class, rest);
        lemma_front("javax."@, class, rest);
        lemma_front("jdk."@, class, rest);
        lemma_front("sun."@, class, rest);
        lemma_front("com.sun."@, class, rest);
        lemma_front("net.minecraft."@, class, rest);
        lemma_front("net.minecraftforge."@, class, rest);
        lemma_front("cpw.mods."@, class, rest);
        lemma_front("com.mojang."@, class, rest);
        lemma_front("org.spongepowered."@, class, rest);
        lemma_front("org.lwjgl"@, class, rest);
        lemma_front("io.netty"@, class, rest);
        lemma_front("it.unimi.dsi"@, class, rest);
        lemma_front("org.apache."@, class, rest);
        lemma_package_fronts(class);
    }
}

proof fn lemma_front(p: Seq<char>, class: Seq<char>, rest: Seq<char>)
    ensures
        p.is_prefix_of(class) ==> p.is_prefix_of(class + rest),
{
    if p.is_prefix_of(class) {
        assert((class + rest).subrange(0, p.len() as int) =~= class.subrange(0, p.len() as int));
    }
}

proof fn lemma_within(p: Seq<char>, q: Seq<char>, class: Seq<char>)
    requires
        p.is_prefix_of(q),
        q.is_prefix_of(class),
    ensures
        p.is_prefix_of(class),
{
    assert(class.subrange(0, p.len() as int) =~= q.subrange(0, p.len() as int));
}

proof fn lemma_first(q: Seq<char>, class: Seq<char>)
    requires
        q.is_prefix_of(class),
        q.len() > 0,
    ensures
        class[0] == q[0],
{
    assert(class.subrange(0, q.len() as int)[0] == q[0]);
}

proof fn lemma_package_fronts(class: Seq<char>)
    requires
        platform_class(class),
    ensures
        ({
            ||| class[0] == 'j'
            ||| class[0] == 's'
            ||| "com."@.is_prefix_of(class)
            ||| "net.minecraft"@.is_prefix_of(class)
            ||| "cpw.mods."@.is_prefix_of(class)
            ||| "org."@.is_prefix_of(class)
            ||| "io.netty"@.is_prefix_of(class)
            ||| "it.unimi.dsi"@.is_prefix_of(class)
        }),
{
    if "java."@.is_prefix_of(class) {
        reveal_strlit("java.");
        lemma_first("java."@, class);
    } else if "javax."@.is_prefix_of(class) {
        reveal_strlit("javax.");
        lemma_first("javax."@, class);
    } else if "jdk."@.is_prefix_of(class) {
        reveal_strlit("jdk.");
        lemma_first("jdk."@, class);
    } else if "sun."@.is_prefix_of(class) {
        reveal_strlit("sun.");
        lemma_first("sun."@, class);
    } else if "com.sun."@.is_prefix_of(class) {
        lemma_com_sun();
        lemma_within("com."@, "com.sun."@, class);
    } else if "net.minecraft."@.is_prefix_of(class) {
        lemma_minecraft();
        lemma_within("net.minecraft"@, "net.minecraft."@, class);
    } else if "net.minecraftforge."@.is_prefix_of(class) {
        lemma_minecraftforge();
        lemma_within("net.minecraft"@, "net.minecraftforge."@, class);
    } else if "com.mojang."@.is_prefix_of(class) {
        lemma_mojang();
        lemma_within("com."@, "com.mojang."@, class);
    } else if "org.spongepowered."@.is_prefix_of(class) {
        lemma_sponge();
        lemma_within("org."@, "org.spongepowered."@, class);
    } else if "org.lwjgl"@.is_prefix_of(class) {
        lemma_lwjgl();
        lemma_within("org."@, "org.lwjgl"@, class);
    } else if "org.apache."@.is_prefix_of(class) {
        lemma_apache();
        lemma_within("org."@, "org.apache."@, class);
    }
}

proof fn lemma_com_sun()
    ensures
        "com."@.is_prefix_of("com.sun."@),
{
    reveal_strlit("com.");
    reveal_strlit("com.sun.");
    assert("com.sun."@.subrange(0, 4) =~= "com."@);
}

proof fn lemma_minecraft()
    ensures
        "net.minecraft"@.is_prefix_of("net.minecraft."@),
{
    reveal_strlit("net.minecraft");
    reveal_strlit("net.minecraft.");
    assert("net.minecraft."@.subrange(0, 13) =~= "net.minecraft"@);
}

proof fn lemma_minecraftforge()
    ensures
        "net.minecraft"@.is_prefix_of("net.minecraftforge."@),
{
    reveal_strlit("net.minecraft");
    reveal_strlit("net.minecraftforge.");
    assert("net.minecraftforge."@.subrange(0, 13) =~= "net.minecraft"@);
}

proof fn lemma_mojang()
    ensures
        "com."@.is_prefix_of("com.mojang."@),
{
    reveal_strlit("com.");
    reveal_strlit("com.mojang.");
    assert("com.mojang."@.subrange(0, 4) =~= "com."@);
}

proof fn lemma_sponge()
    ensures
        "org."@.is_prefix_of("org.spongepowered."@),
{
    reveal_strlit("org.");
    reveal_strlit("org.spongepowered.");
    assert("org.spongepowered."@.subrange(0, 4) =~= "org."@);
}

proof fn lemma_lwjgl()
    ensures
        "org."@.is_prefix_of("org.lwjgl"@),
{
    reveal_strlit("org.");
    reveal_strlit("org.lwjgl");
    assert("org.lwjgl"@.subrange(0, 4) =~= "org."@);
}

proof fn lemma_apache()
    ensures
        "org."@.is_prefix_of("org.apache."@),
{
    reveal_strlit("org.");
    reveal_strlit("org.apache.");
    assert("org.apache."@.subrange(0, 4) =~= "org."@);
}

/// Mods are counted one by one, and those of the platform not at all.
pub proof fn law_mods_are_counted(a: Seq<ModView>, b: Seq<ModView>, m: ModView)
    ensures
        count_mods(a + b) == count_mods(a) + count_mods(b),
        count_mods(seq![m]) == (if platform_id(m.id) {
            0nat
        } else {
            1nat
        }),
    decreases b.len(),
{
    let one = seq![m];
    assert(one.drop_last() =~= Seq::<ModView>::empty());
    assert(count_mods(one.drop_last()) == 0);
    if b.len() == 0 {
        assert(a + b =~= a);
    } else {
        law_mods_are_counted(a, b.drop_last(), m);
        assert((a + b).drop_last() =~= a + b.drop_last());
    }
}

} // verus!
