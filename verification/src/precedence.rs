//! The order of semantic versions, as `semver` documents and implements it,
//! and the proof that it is a total order.
//!
//! Comparisons are written as integers: negative for "before", zero for
//! "same place", positive for "after".

use vstd::prelude::*;

verus! {

broadcast use vstd::seq::group_seq_axioms;

/// A version as plain values: major, minor, patch, pre-release, build metadata.
pub type VersionParts = (u64, u64, u64, Seq<char>, Seq<char>);

/// Compares two integers.
pub open spec fn int_order(a: int, b: int) -> int {
    if a < b {
        -1
    } else if a > b {
        1
    } else {
        0
    }
}

/// Compares two strings character by character, a prefix first.
pub open spec fn lex_order(a: Seq<char>, b: Seq<char>) -> int
    decreases a.len(),
{
    if a.len() == 0 {
        if b.len() == 0 {
            0
        } else {
            -1
        }
    } else if b.len() == 0 {
        1
    } else if (a[0] as u32) < (b[0] as u32) {
        -1
    } else if (a[0] as u32) > (b[0] as u32) {
        1
    } else {
        lex_order(a.drop_first(), b.drop_first())
    }
}

/// Whether an identifier consists of ASCII digits only.
pub open spec fn is_numeric_id(id: Seq<char>) -> bool {
    forall|i: int| 0 <= i < id.len() ==> 0x30 <= (#[trigger] id[i] as u32) <= 0x39
}

/// Compares two pre-release identifiers: numeric ones by value (shorter
/// first, as they have no leading zeros), numeric before alphanumeric, and
/// alphanumeric ones in ASCII order.
pub open spec fn pre_id_order(a: Seq<char>, b: Seq<char>) -> int {
    if is_numeric_id(a) && is_numeric_id(b) {
        if a.len() != b.len() {
            int_order(a.len() as int, b.len() as int)
        } else {
            lex_order(a, b)
        }
    } else if is_numeric_id(a) {
        -1
    } else if is_numeric_id(b) {
        1
    } else {
        lex_order(a, b)
    }
}

/// `s` without its leading zeros.
pub open spec fn trim_zeros(s: Seq<char>) -> Seq<char>
    decreases s.len(),
{
    if s.len() > 0 && s[0] == '0' {
        trim_zeros(s.drop_first())
    } else {
        s
    }
}

/// Compares two build metadata identifiers: numeric ones by value, then by
/// their number of leading zeros; numeric before alphanumeric; alphanumeric
/// ones in ASCII order.
pub open spec fn build_id_order(a: Seq<char>, b: Seq<char>) -> int {
    if is_numeric_id(a) && is_numeric_id(b) {
        let av = trim_zeros(a);
        let bv = trim_zeros(b);
        if av.len() != bv.len() {
            int_order(av.len() as int, bv.len() as int)
        } else if lex_order(av, bv) != 0 {
            lex_order(av, bv)
        } else {
            int_order(a.len() as int, b.len() as int)
        }
    } else if is_numeric_id(a) {
        -1
    } else if is_numeric_id(b) {
        1
    } else {
        lex_order(a, b)
    }
}

/// Compares two identifiers, of a pre-release when `pre`, else of build
/// metadata.
pub open spec fn id_order(a: Seq<char>, b: Seq<char>, pre: bool) -> int {
    if pre {
        pre_id_order(a, b)
    } else {
        build_id_order(a, b)
    }
}

/// Compares two lists of identifiers lexicographically: the first that differ
/// decide, and a list that is a prefix of the other comes first.
pub open spec fn ids_order(a: Seq<Seq<char>>, b: Seq<Seq<char>>, pre: bool) -> int
    decreases a.len(),
{
    if a.len() == 0 {
        if b.len() == 0 {
            0
        } else {
            -1
        }
    } else if b.len() == 0 {
        1
    } else if id_order(a[0], b[0], pre) != 0 {
        id_order(a[0], b[0], pre)
    } else {
        ids_order(a.drop_first(), b.drop_first(), pre)
    }
}

/// The dot-separated parts of `s` (one empty part for the empty string).
pub open spec fn split_dots(s: Seq<char>) -> Seq<Seq<char>>
    decreases s.len(),
{
    if s.len() == 0 {
        seq![Seq::<char>::empty()]
    } else if s.last() == '.' {
        split_dots(s.drop_last()).push(Seq::<char>::empty())
    } else {
        let parts = split_dots(s.drop_last());
        parts.update(parts.len() - 1, parts.last().push(s.last()))
    }
}

/// Compares two pre-releases: a release (empty pre-release) comes after every
/// pre-release; otherwise their identifiers decide.
pub open spec fn prerelease_order(a: Seq<char>, b: Seq<char>) -> int {
    if a.len() == 0 && b.len() == 0 {
        0
    } else if a.len() == 0 {
        1
    } else if b.len() == 0 {
        -1
    } else {
        ids_order(split_dots(a), split_dots(b), true)
    }
}

/// Compares two build metadata strings by their identifiers.
pub open spec fn build_order(a: Seq<char>, b: Seq<char>) -> int {
    ids_order(split_dots(a), split_dots(b), false)
}

/// Compares two versions: major, minor, patch, pre-release, build metadata,
/// the first that differ deciding.
pub open spec fn version_order(a: VersionParts, b: VersionParts) -> int {
    if a.0 != b.0 {
        int_order(a.0 as int, b.0 as int)
    } else if a.1 != b.1 {
        int_order(a.1 as int, b.1 as int)
    } else if a.2 != b.2 {
        int_order(a.2 as int, b.2 as int)
    } else if prerelease_order(a.3, b.3) != 0 {
        prerelease_order(a.3, b.3)
    } else {
        build_order(a.4, b.4)
    }
}

/// Whether version `a` comes before version `b`.
pub open spec fn version_precedes_spec(a: VersionParts, b: VersionParts) -> bool {
    version_order(a, b) < 0
}

/// Whether two comparison results of `x` with `y` and of `y` with `x` agree.
pub open spec fn mirrored(c: int, d: int) -> bool {
    &&& (c < 0 <==> d > 0)
    &&& (c == 0 <==> d == 0)
}

// ---------------------------------------------------------------------------
// Each comparison is a total preorder
// ---------------------------------------------------------------------------

proof fn lemma_lex_mirrored(a: Seq<char>, b: Seq<char>)
    ensures
        mirrored(lex_order(a, b), lex_order(b, a)),
    decreases a.len(),
{
    if a.len() > 0 && b.len() > 0 && a[0] as u32 == b[0] as u32 {
        lemma_lex_mirrored(a.drop_first(), b.drop_first());
    }
}

proof fn lemma_lex_trans(a: Seq<char>, b: Seq<char>, c: Seq<char>)
    ensures
        lex_order(a, b) <= 0 && lex_order(b, c) <= 0 ==> lex_order(a, c) <= 0,
    decreases a.len(),
{
    if a.len() > 0 && b.len() > 0 && c.len() > 0 && a[0] as u32 == b[0] as u32 && b[0] as u32
        == c[0] as u32 {
        lemma_lex_trans(a.drop_first(), b.drop_first(), c.drop_first());
    }
}

proof fn lemma_lex_zero(a: Seq<char>, b: Seq<char>)
    requires
        lex_order(a, b) == 0,
    ensures
        a == b,
    decreases a.len(),
{
    if a.len() > 0 {
        lemma_lex_zero(a.drop_first(), b.drop_first());
        vstd::utf8::char_u32_cast(a[0], a[0] as u32);
        vstd::utf8::char_u32_cast(b[0], b[0] as u32);
        assert(a[0] == b[0]);
        assert(a =~= seq![a[0]] + a.drop_first());
        assert(b =~= seq![b[0]] + b.drop_first());
    }
}

proof fn lemma_pre_id_mirrored(a: Seq<char>, b: Seq<char>)
    ensures
        mirrored(pre_id_order(a, b), pre_id_order(b, a)),
{
    lemma_lex_mirrored(a, b);
}

proof fn lemma_pre_id_trans(a: Seq<char>, b: Seq<char>, c: Seq<char>)
    requires
        pre_id_order(a, b) <= 0,
        pre_id_order(b, c) <= 0,
    ensures
        pre_id_order(a, c) <= 0,
{
    lemma_lex_trans(a, b, c);
    lemma_lex_zero_len(a, b);
    lemma_lex_zero_len(b, c);
}

proof fn lemma_lex_zero_len(a: Seq<char>, b: Seq<char>)
    ensures
        lex_order(a, b) == 0 ==> a.len() == b.len(),
{
    if lex_order(a, b) == 0 {
        lemma_lex_zero(a, b);
    }
}

proof fn lemma_build_id_mirrored(a: Seq<char>, b: Seq<char>)
    ensures
        mirrored(build_id_order(a, b), build_id_order(b, a)),
{
    lemma_lex_mirrored(a, b);
    lemma_lex_mirrored(trim_zeros(a), trim_zeros(b));
}

proof fn lemma_build_id_trans(a: Seq<char>, b: Seq<char>, c: Seq<char>)
    requires
        build_id_order(a, b) <= 0,
        build_id_order(b, c) <= 0,
    ensures
        build_id_order(a, c) <= 0,
{
    let (av, bv, cv) = (trim_zeros(a), trim_zeros(b), trim_zeros(c));
    lemma_lex_trans(a, b, c);
    lemma_lex_trans(av, bv, cv);
    lemma_lex_zero_len(av, bv);
    lemma_lex_zero_len(bv, cv);
    lemma_lex_zero_len(av, cv);
    lemma_lex_mirrored(av, bv);
    lemma_lex_mirrored(bv, cv);
    lemma_lex_mirrored(av, cv);
    if lex_order(av, bv) == 0 && lex_order(bv, cv) == 0 {
        lemma_lex_zero(av, bv);
        lemma_lex_zero(bv, cv);
    }
    if lex_order(av, bv) == 0 && lex_order(bv, cv) < 0 {
        lemma_lex_zero(av, bv);
    }
    if lex_order(av, bv) < 0 && lex_order(bv, cv) == 0 {
        lemma_lex_zero(bv, cv);
    }
    if lex_order(av, cv) == 0 {
        lemma_lex_zero(av, cv);
        if lex_order(av, bv) < 0 && lex_order(bv, cv) < 0 {
            lemma_lex_trans(bv, cv, av);
        }
    }
}

proof fn lemma_id_mirrored(a: Seq<char>, b: Seq<char>, pre: bool)
    ensures
        mirrored(id_order(a, b, pre), id_order(b, a, pre)),
{
    lemma_pre_id_mirrored(a, b);
    lemma_build_id_mirrored(a, b);
}

proof fn lemma_id_trans(a: Seq<char>, b: Seq<char>, c: Seq<char>, pre: bool)
    requires
        id_order(a, b, pre) <= 0,
        id_order(b, c, pre) <= 0,
    ensures
        id_order(a, c, pre) <= 0,
{
    if pre {
        lemma_pre_id_trans(a, b, c);
    } else {
        lemma_build_id_trans(a, b, c);
    }
}

/// Two identifiers in the same place are the same place for every third one.
proof fn lemma_id_zero_congruent(a: Seq<char>, b: Seq<char>, c: Seq<char>, pre: bool)
    requires
        id_order(a, b, pre) == 0,
    ensures
        id_order(a, c, pre) <= 0 <==> id_order(b, c, pre) <= 0,
        id_order(a, c, pre) >= 0 <==> id_order(b, c, pre) >= 0,
{
    lemma_id_mirrored(a, b, pre);
    lemma_id_mirrored(a, c, pre);
    lemma_id_mirrored(b, c, pre);
    if id_order(a, c, pre) <= 0 {
        lemma_id_trans(b, a, c, pre);
    }
    if id_order(b, c, pre) <= 0 {
        lemma_id_trans(a, b, c, pre);
    }
    if id_order(a, c, pre) >= 0 {
        lemma_id_trans(c, a, b, pre);
    }
    if id_order(b, c, pre) >= 0 {
        lemma_id_trans(c, b, a, pre);
    }
}

proof fn lemma_ids_mirrored(a: Seq<Seq<char>>, b: Seq<Seq<char>>, pre: bool)
    ensures
        mirrored(ids_order(a, b, pre), ids_order(b, a, pre)),
    decreases a.len(),
{
    if a.len() > 0 && b.len() > 0 {
        lemma_id_mirrored(a[0], b[0], pre);
        lemma_ids_mirrored(a.drop_first(), b.drop_first(), pre);
    }
}

proof fn lemma_ids_trans(a: Seq<Seq<char>>, b: Seq<Seq<char>>, c: Seq<Seq<char>>, pre: bool)
    ensures
        ids_order(a, b, pre) <= 0 && ids_order(b, c, pre) <= 0 ==> ids_order(a, c, pre) <= 0,
    decreases a.len(),
{
    if a.len() > 0 && b.len() > 0 && c.len() > 0 {
        let (x, y, z) = (a[0], b[0], c[0]);
        lemma_id_mirrored(x, y, pre);
        lemma_id_mirrored(y, z, pre);
        lemma_id_mirrored(x, z, pre);
        if id_order(x, y, pre) <= 0 && id_order(y, z, pre) <= 0 {
            lemma_id_trans(x, y, z, pre);
        }
        if id_order(x, y, pre) == 0 {
            lemma_id_zero_congruent(x, y, z, pre);
        }
        if id_order(y, z, pre) == 0 {
            lemma_id_zero_congruent(z, y, x, pre);
        }
        if id_order(x, z, pre) == 0 {
            lemma_id_zero_congruent(x, z, y, pre);
        }
        lemma_ids_trans(a.drop_first(), b.drop_first(), c.drop_first(), pre);
    }
}

proof fn lemma_prerelease_mirrored(a: Seq<char>, b: Seq<char>)
    ensures
        mirrored(prerelease_order(a, b), prerelease_order(b, a)),
{
    lemma_ids_mirrored(split_dots(a), split_dots(b), true);
}

proof fn lemma_prerelease_trans(a: Seq<char>, b: Seq<char>, c: Seq<char>)
    ensures
        prerelease_order(a, b) <= 0 && prerelease_order(b, c) <= 0 ==> prerelease_order(a, c) <= 0,
{
    lemma_ids_trans(split_dots(a), split_dots(b), split_dots(c), true);
}

proof fn lemma_build_mirrored(a: Seq<char>, b: Seq<char>)
    ensures
        mirrored(build_order(a, b), build_order(b, a)),
{
    lemma_ids_mirrored(split_dots(a), split_dots(b), false);
}

proof fn lemma_build_trans(a: Seq<char>, b: Seq<char>, c: Seq<char>)
    ensures
        build_order(a, b) <= 0 && build_order(b, c) <= 0 ==> build_order(a, c) <= 0,
{
    lemma_ids_trans(split_dots(a), split_dots(b), split_dots(c), false);
}

/// Comparing `a` with `b` and `b` with `a` give opposite answers.
pub proof fn lemma_version_order_mirrored(a: VersionParts, b: VersionParts)
    ensures
        mirrored(version_order(a, b), version_order(b, a)),
{
    lemma_prerelease_mirrored(a.3, b.3);
    lemma_build_mirrored(a.4, b.4);
}

/// Versions are ordered transitively: if `a` is not after `b` and `b` is not
/// after `c`, then `a` is not after `c`; and it is before `c` when either
/// step is strict.
pub proof fn lemma_version_order_transitive(a: VersionParts, b: VersionParts, c: VersionParts)
    requires
        version_order(a, b) <= 0,
        version_order(b, c) <= 0,
    ensures
        version_order(a, c) <= 0,
        version_order(a, b) < 0 || version_order(b, c) < 0 ==> version_order(a, c) < 0,
{
    lemma_version_le_trans(a, b, c);
    lemma_version_order_mirrored(a, b);
    lemma_version_order_mirrored(b, c);
    lemma_version_order_mirrored(a, c);
    if version_order(a, c) == 0 {
        // c is then not after a, so b is not after a: a and b are level; and
        // likewise b and c.
        lemma_version_le_trans(c, a, b);
        lemma_version_le_trans(b, c, a);
    }
}

proof fn lemma_version_le_trans(a: VersionParts, b: VersionParts, c: VersionParts)
    requires
        version_order(a, b) <= 0,
        version_order(b, c) <= 0,
    ensures
        version_order(a, c) <= 0,
{
    lemma_prerelease_mirrored(a.3, b.3);
    lemma_prerelease_mirrored(b.3, c.3);
    lemma_prerelease_mirrored(a.3, c.3);
    lemma_build_mirrored(a.4, b.4);
    lemma_build_mirrored(b.4, c.4);
    lemma_build_mirrored(a.4, c.4);
    lemma_prerelease_trans(a.3, b.3, c.3);
    lemma_prerelease_trans(c.3, a.3, b.3);
    lemma_prerelease_trans(b.3, c.3, a.3);
    lemma_build_trans(a.4, b.4, c.4);
}

/// A version is in the same place as itself.
pub proof fn lemma_version_order_reflexive(a: VersionParts)
    ensures
        version_order(a, a) == 0,
{
    lemma_version_order_mirrored(a, a);
}


// ---------------------------------------------------------------------------
// Only equal versions share a place
// ---------------------------------------------------------------------------

/// The parts of a dotted string joined back with dots.
pub open spec fn join_dots(parts: Seq<Seq<char>>) -> Seq<char>
    decreases parts.len(),
{
    if parts.len() <= 1 {
        if parts.len() == 1 {
            parts[0]
        } else {
            Seq::<char>::empty()
        }
    } else {
        join_dots(parts.drop_last()) + seq!['.'] + parts.last()
    }
}

proof fn lemma_join_split(s: Seq<char>)
    ensures
        split_dots(s).len() >= 1,
        join_dots(split_dots(s)) == s,
    decreases s.len(),
{
    if s.len() > 0 {
        let p = split_dots(s.drop_last());
        lemma_join_split(s.drop_last());
        if s.last() == '.' {
            assert(p.push(Seq::<char>::empty()).drop_last() =~= p);
            assert(s.drop_last() + seq!['.'] + Seq::<char>::empty() =~= s);
        } else {
            let q = p.update(p.len() - 1, p.last().push(s.last()));
            if p.len() == 1 {
                assert(q[0] =~= s);
            } else {
                assert(q.drop_last() =~= p.drop_last());
                assert(join_dots(p.drop_last()) + seq!['.'] + p.last().push(s.last()) =~= (
                join_dots(p.drop_last()) + seq!['.'] + p.last()).push(s.last()));
                assert(s.drop_last().push(s.last()) =~= s);
            }
        }
    }
}

proof fn lemma_trim_zeros_prefix(a: Seq<char>)
    ensures
        trim_zeros(a).len() <= a.len(),
        a == Seq::new((a.len() - trim_zeros(a).len()) as nat, |i: int| '0') + trim_zeros(a),
    decreases a.len(),
{
    if a.len() > 0 && a[0] == '0' {
        lemma_trim_zeros_prefix(a.drop_first());
        let t = trim_zeros(a);
        assert(t == trim_zeros(a.drop_first()));
        let k = (a.len() - t.len()) as nat;
        let rest = a.drop_first();
        assert(rest == Seq::new((k - 1) as nat, |i: int| '0') + t);
        assert(a =~= seq![a[0]] + rest);
        assert(Seq::new(k, |i: int| '0') =~= seq!['0'] + Seq::new((k - 1) as nat, |i: int| '0'));
        assert(a =~= Seq::new(k, |i: int| '0') + t);
    } else {
        assert(a =~= Seq::new(0, |i: int| '0') + a);
    }
}

proof fn lemma_id_zero_equal(a: Seq<char>, b: Seq<char>, pre: bool)
    requires
        id_order(a, b, pre) == 0,
    ensures
        a == b,
{
    if pre {
        if lex_order(a, b) == 0 {
            lemma_lex_zero(a, b);
        }
    } else {
        if is_numeric_id(a) && is_numeric_id(b) {
            lemma_lex_zero(trim_zeros(a), trim_zeros(b));
            lemma_trim_zeros_prefix(a);
            lemma_trim_zeros_prefix(b);
            assert(Seq::new((a.len() - trim_zeros(a).len()) as nat, |i: int| '0') =~= Seq::new(
                (b.len() - trim_zeros(b).len()) as nat,
                |i: int| '0',
            ));
        } else {
            lemma_lex_zero(a, b);
        }
    }
}

proof fn lemma_ids_zero_equal(a: Seq<Seq<char>>, b: Seq<Seq<char>>, pre: bool)
    requires
        ids_order(a, b, pre) == 0,
    ensures
        a == b,
    decreases a.len(),
{
    if a.len() > 0 {
        lemma_id_zero_equal(a[0], b[0], pre);
        lemma_ids_zero_equal(a.drop_first(), b.drop_first(), pre);
        assert(a =~= seq![a[0]] + a.drop_first());
        assert(b =~= seq![b[0]] + b.drop_first());
    }
}

/// Two versions share a place in the order only when they are the same:
/// together with the laws above, the order is a total order.
pub proof fn lemma_version_order_zero_equal(a: VersionParts, b: VersionParts)
    requires
        version_order(a, b) == 0,
    ensures
        a == b,
{
    if a.3.len() != 0 || b.3.len() != 0 {
        if a.3.len() != 0 && b.3.len() != 0 {
            lemma_ids_zero_equal(split_dots(a.3), split_dots(b.3), true);
            lemma_join_split(a.3);
            lemma_join_split(b.3);
        }
    }
    lemma_ids_zero_equal(split_dots(a.4), split_dots(b.4), false);
    lemma_join_split(a.4);
    lemma_join_split(b.4);
    assert(a.3 =~= b.3);
}

} // verus!
