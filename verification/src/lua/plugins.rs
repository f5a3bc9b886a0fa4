//! Bundled and user plugin discovery.
//!
//! Each runtime layer has a `plugin/` directory. A plugin there is a
//! flat `<stem>.lua` file or a `<stem>/init.lua` directory; either way
//! its id is `<stem>`. Within a layer plugins load in the order of their
//! stems (a flat file before a directory of the same stem), so palette
//! entries surface predictably across runs. Layers are walked in
//! priority order and a stem seen in a higher-priority layer shadows
//! the same stem further down; a stem on the user's `disable` list is
//! skipped.
//!
//! The directory listing happens at the edge; this module decides, from
//! what was found, which plugins load and in which order.
use vstd::prelude::*;
use crate::input::keymap::string_views;
use crate::text::{str_chars, str_is, string_from_chars};

verus! {

/// A plugin found in a layer's `plugin/` directory.
#[derive(Debug)]
pub struct PluginCandidate {
    /// The plugin id.
    pub stem: String,
    /// The Lua source to load.
    pub path: String,
    /// `true` for the `<stem>/init.lua` form, `false` for `<stem>.lua`.
    pub dir_form: bool,
}

// ── File names ─────────────────────────────────────────────────────

/// The stem of a `<stem>.lua` file name: the name without its `.lua`
/// extension, when that leaves something (`.lua` alone is a hidden
/// file without extension).
pub open spec fn spec_plugin_stem(name: Seq<char>) -> Option<Seq<char>> {
    if name.len() > 4 && name.subrange(name.len() - 4, name.len() as int) == ".lua"@ {
        Some(name.subrange(0, name.len() - 4))
    } else {
        None
    }
}

/// The plugin id of a directory entry named `file_name`, when it is a
/// `<stem>.lua` file.
pub fn plugin_stem(file_name: &str) -> (r: Option<String>)
    ensures
        match r {
            Some(s) => spec_plugin_stem(file_name@) == Some(s@),
            None => spec_plugin_stem(file_name@) is None,
        },
{
    let cs = str_chars(file_name);
    let n = cs.len();
    if n <= 4 {
        return None;
    }
    let ext = str_chars(".lua");
    proof {
        reveal_strlit(".lua");
    }
    if cs[n - 4] == ext[0] && cs[n - 3] == ext[1] && cs[n - 2] == ext[2] && cs[n - 1] == ext[3] {
        assert(cs@.subrange(n - 4, n as int) =~= ".lua"@);
        let mut stem: Vec<char> = Vec::new();
        let mut i: usize = 0;
        while i < n - 4
            invariant
                n == cs@.len(),
                n > 4,
                i <= n - 4,
                stem@ == cs@.subrange(0, i as int),
            decreases n - 4 - i,
        {
            stem.push(cs[i]);
            i = i + 1;
            assert(stem@ =~= cs@.subrange(0, i as int));
        }
        Some(string_from_chars(&stem))
    } else {
        assert(cs@.subrange(n - 4, n as int) != ".lua"@) by {
            let t = cs@.subrange(n - 4, n as int);
            if t == ".lua"@ {
                assert(t[0] == cs@[n - 4]);
                assert(t[3] == cs@[n - 1]);
            }
        }
        None
    }
}

// ── Ordering ───────────────────────────────────────────────────────

/// Lexicographic order of strings by code point, the order of Rust's
/// `str` comparison (UTF-8 preserves code point order).
pub open spec fn spec_str_lt(a: Seq<char>, b: Seq<char>) -> bool
    decreases a.len(),
{
    if b.len() == 0 {
        false
    } else if a.len() == 0 {
        true
    } else if a[0] != b[0] {
        a[0] < b[0]
    } else {
        spec_str_lt(a.drop_first(), b.drop_first())
    }
}

/// Any two strings compare: one is before the other, or they are equal.
pub proof fn lemma_str_lt_total(a: Seq<char>, b: Seq<char>)
    ensures
        spec_str_lt(a, b) || a == b || spec_str_lt(b, a),
    decreases a.len(),
{
    if a.len() == 0 || b.len() == 0 {
        if a.len() == 0 && b.len() == 0 {
            assert(a =~= b);
        }
    } else if a[0] != b[0] {
    } else {
        lemma_str_lt_total(a.drop_first(), b.drop_first());
        if a.drop_first() == b.drop_first() {
            assert(a.drop_first().len() == a.len() - 1);
            assert(b.drop_first().len() == b.len() - 1);
            assert(a.len() == b.len());
            assert(a =~= b) by {
                assert forall|i: int| 0 <= i < a.len() implies a[i] == b[i] by {
                    if i > 0 {
                        assert(a[i] == a.drop_first()[i - 1]);
                        assert(b[i] == b.drop_first()[i - 1]);
                    }
                }
            }
        }
    }
}

/// `true` iff `a` sorts strictly before `b`.
pub fn chars_lt(a: &Vec<char>, b: &Vec<char>) -> (r: bool)
    ensures
        r == spec_str_lt(a@, b@),
{
    let mut i: usize = 0;
    assert(a@.skip(0) =~= a@);
    assert(b@.skip(0) =~= b@);
    while i < a.len() && i < b.len()
        invariant
            i <= a@.len(),
            i <= b@.len(),
            spec_str_lt(a@, b@) == spec_str_lt(a@.skip(i as int), b@.skip(i as int)),
        decreases a@.len() - i,
    {
        let x = a[i];
        let y = b[i];
        assert(a@.skip(i as int)[0] == x);
        assert(b@.skip(i as int)[0] == y);
        if x != y {
            return x < y;
        }
        assert(a@.skip(i as int).drop_first() =~= a@.skip(i + 1));
        assert(b@.skip(i as int).drop_first() =~= b@.skip(i + 1));
        i = i + 1;
    }
    if i < b.len() {
        assert(a@.skip(i as int).len() == 0);
        true
    } else {
        assert(b@.skip(i as int).len() == 0);
        false
    }
}

/// Load order of two candidates of one layer: by stem, and for equal
/// stems the flat file before the directory.
pub open spec fn spec_candidate_lt(x: PluginCandidate, y: PluginCandidate) -> bool {
    spec_str_lt(x.stem@, y.stem@) || (x.stem@ == y.stem@ && !x.dir_form && y.dir_form)
}

/// `x` may come before `y`: it sorts strictly before, or has the same
/// stem and form.
pub open spec fn spec_candidate_le(x: PluginCandidate, y: PluginCandidate) -> bool {
    spec_candidate_lt(x, y) || (x.stem@ == y.stem@ && x.dir_form == y.dir_form)
}

/// Candidates that do not sort before one another are ordered the other
/// way round.
pub proof fn lemma_candidate_total(x: PluginCandidate, y: PluginCandidate)
    ensures
        !spec_candidate_lt(x, y) ==> spec_candidate_le(y, x),
{
    lemma_str_lt_total(x.stem@, y.stem@);
}

/// `true` iff `x` loads strictly before `y`.
pub fn candidate_lt(x: &PluginCandidate, y: &PluginCandidate) -> (r: bool)
    ensures
        r == spec_candidate_lt(*x, *y),
{
    let a = str_chars(x.stem.as_str());
    let b = str_chars(y.stem.as_str());
    if chars_lt(&a, &b) {
        true
    } else if crate::text::chars_eq(&a, &b) {
        !x.dir_form && y.dir_form
    } else {
        false
    }
}

// ── Sorting ────────────────────────────────────────────────────────

/// Where `x` goes in `s`: before the first element it sorts strictly
/// before, at the end when there is none.
pub open spec fn spec_insert_pos(s: Seq<PluginCandidate>, x: PluginCandidate) -> int
    decreases s.len(),
{
    if s.len() == 0 || spec_candidate_lt(x, s[0]) {
        0
    } else {
        1 + spec_insert_pos(s.drop_first(), x)
    }
}

/// Stable insertion sort: the elements of `s` inserted in order, each
/// at [`spec_insert_pos`].
pub open spec fn spec_sort(s: Seq<PluginCandidate>) -> Seq<PluginCandidate>
    decreases s.len(),
{
    if s.len() == 0 {
        Seq::empty()
    } else {
        let prev = spec_sort(s.drop_last());
        prev.insert(spec_insert_pos(prev, s.last()), s.last())
    }
}

/// Adjacent elements `i` and `i + 1` are in load order.
pub open spec fn adjacent_ordered(s: Seq<PluginCandidate>, i: int) -> bool {
    spec_candidate_le(s[i], s[i + 1])
}

/// Every adjacent pair is in load order.
pub open spec fn spec_sorted(s: Seq<PluginCandidate>) -> bool {
    forall|i: int| 0 <= i && i + 1 < s.len() ==> #[trigger] adjacent_ordered(s, i)
}

proof fn lemma_insert_pos_bounds(s: Seq<PluginCandidate>, x: PluginCandidate)
    ensures
        0 <= spec_insert_pos(s, x) <= s.len(),
        forall|k: int| 0 <= k < spec_insert_pos(s, x) ==> !spec_candidate_lt(x, #[trigger] s[k]),
        spec_insert_pos(s, x) < s.len() ==> spec_candidate_lt(x, s[spec_insert_pos(s, x)]),
    decreases s.len(),
{
    if s.len() > 0 && !spec_candidate_lt(x, s[0]) {
        let t = s.drop_first();
        lemma_insert_pos_bounds(t, x);
        assert forall|k: int| 0 <= k < spec_insert_pos(s, x) implies !spec_candidate_lt(x, #[trigger] s[k]) by {
            if k > 0 {
                assert(s[k] == t[k - 1]);
            }
        }
        if spec_insert_pos(s, x) < s.len() {
            assert(s[spec_insert_pos(s, x)] == t[spec_insert_pos(t, x)]);
        }
    }
}

/// Inserting into a sorted sequence keeps it sorted.
proof fn lemma_insert_sorted(s: Seq<PluginCandidate>, x: PluginCandidate)
    requires
        spec_sorted(s),
    ensures
        spec_sorted(s.insert(spec_insert_pos(s, x), x)),
{
    lemma_insert_pos_bounds(s, x);
    let j = spec_insert_pos(s, x);
    let n = s.insert(j, x);
    assert forall|k: int| 0 <= k && k + 1 < n.len() implies #[trigger] adjacent_ordered(n, k) by {
        if k + 1 < j {
            assert(n[k] == s[k] && n[k + 1] == s[k + 1]);
            assert(adjacent_ordered(s, k));
        } else if k + 1 == j {
            assert(n[k] == s[k] && n[k + 1] == x);
            assert(!spec_candidate_lt(x, s[k]));
            lemma_candidate_total(x, s[k]);
        } else if k == j {
            assert(n[k] == x && n[k + 1] == s[k]);
        } else {
            assert(n[k] == s[k - 1] && n[k + 1] == s[k]);
            assert(adjacent_ordered(s, k - 1));
        }
    }
}

/// The load order is sorted.
pub proof fn law_sort_is_sorted(s: Seq<PluginCandidate>)
    ensures
        spec_sorted(spec_sort(s)),
    decreases s.len(),
{
    if s.len() > 0 {
        law_sort_is_sorted(s.drop_last());
        lemma_insert_sorted(spec_sort(s.drop_last()), s.last());
    }
}

/// The load order holds exactly the candidates found, none lost and
/// none added.
pub proof fn law_sort_is_permutation(s: Seq<PluginCandidate>)
    ensures
        spec_sort(s).to_multiset() == s.to_multiset(),
    decreases s.len(),
{
    broadcast use vstd::seq_lib::to_multiset_insert, vstd::seq_lib::to_multiset_build;
    if s.len() > 0 {
        law_sort_is_permutation(s.drop_last());
        let prev = spec_sort(s.drop_last());
        let x = s.last();
        lemma_insert_pos_bounds(prev, x);
        let j = spec_insert_pos(prev, x);
        assert(prev.insert(j, x).to_multiset() == prev.to_multiset().insert(x));
        assert(s.drop_last().push(x) =~= s);
        assert(s.drop_last().push(x).to_multiset() =~= s.drop_last().to_multiset().insert(x));
        assert(spec_sort(s) == prev.insert(j, x));
        assert(spec_sort(s).to_multiset() =~= s.to_multiset());
    } else {
        assert(s =~= Seq::<PluginCandidate>::empty());
    }
}

/// The position `x` goes to in `s`.
fn insert_pos(s: &Vec<PluginCandidate>, x: &PluginCandidate) -> (r: usize)
    ensures
        r == spec_insert_pos(s@, *x),
{
    let mut j: usize = 0;
    assert(s@.skip(0) =~= s@);
    while j < s.len() && !candidate_lt(x, &s[j])
        invariant
            j <= s@.len(),
            spec_insert_pos(s@, *x) == j + spec_insert_pos(s@.skip(j as int), *x),
        decreases s@.len() - j,
    {
        assert(s@.skip(j as int)[0] == s@[j as int]);
        assert(s@.skip(j as int).drop_first() =~= s@.skip(j + 1));
        j = j + 1;
    }
    if j < s.len() {
        assert(s@.skip(j as int)[0] == s@[j as int]);
    }
    j
}

/// Sort candidates into load order (see [`spec_sort`]).
pub fn sort_candidates(candidates: Vec<PluginCandidate>) -> (r: Vec<PluginCandidate>)
    ensures
        r@ == spec_sort(candidates@),
{
    let ghost all = candidates@;
    let n = candidates.len();
    let mut rest = candidates;
    let mut out: Vec<PluginCandidate> = Vec::new();
    let mut i: usize = 0;
    assert(all.skip(0) =~= all);
    while rest.len() > 0
        invariant
            all.len() == n,
            i <= all.len(),
            rest@ == all.skip(i as int),
            out@ == spec_sort(all.take(i as int)),
        decreases rest@.len(),
    {
        let x = rest.remove(0);
        let j = insert_pos(&out, &x);
        proof {
            assert(all.take(i + 1).drop_last() =~= all.take(i as int));
            assert(all.take(i + 1).last() == x);
            lemma_insert_pos_bounds(out@, x);
        }
        out.insert(j, x);
        i = i + 1;
        assert(rest@ =~= all.skip(i as int));
    }
    assert(all.take(i as int) =~= all);
    out
}

// ── Selection ──────────────────────────────────────────────────────

/// Walk candidates in load order: with `dedup`, a stem already in
/// `seen` is shadowed and skipped, and every walked stem joins `seen`
/// (also when it is then disabled); a stem on `disable` is skipped.
/// Yields the selected candidates and the final `seen`.
pub open spec fn spec_walk(
    s: Seq<PluginCandidate>,
    seen: Seq<Seq<char>>,
    dedup: bool,
    disable: Seq<Seq<char>>,
) -> (Seq<PluginCandidate>, Seq<Seq<char>>)
    decreases s.len(),
{
    if s.len() == 0 {
        (Seq::empty(), seen)
    } else {
        let (sel, sn) = spec_walk(s.drop_last(), seen, dedup, disable);
        let c = s.last();
        if dedup && sn.contains(c.stem@) {
            (sel, sn)
        } else {
            let sn2 = if dedup {
                sn.push(c.stem@)
            } else {
                sn
            };
            if disable.contains(c.stem@) {
                (sel, sn2)
            } else {
                (sel.push(c), sn2)
            }
        }
    }
}

/// Walking `a + b` is walking `a`, then `b` from where `a` left off.
pub proof fn lemma_walk_concat(
    a: Seq<PluginCandidate>,
    b: Seq<PluginCandidate>,
    seen: Seq<Seq<char>>,
    dedup: bool,
    disable: Seq<Seq<char>>,
)
    ensures
        spec_walk(a + b, seen, dedup, disable) == ({
            let (sa, na) = spec_walk(a, seen, dedup, disable);
            let (sb, nb) = spec_walk(b, na, dedup, disable);
            (sa + sb, nb)
        }),
    decreases b.len(),
{
    if b.len() == 0 {
        assert(a + b =~= a);
        let (sa, na) = spec_walk(a, seen, dedup, disable);
        assert(sa + Seq::<PluginCandidate>::empty() =~= sa);
    } else {
        lemma_walk_concat(a, b.drop_last(), seen, dedup, disable);
        assert((a + b).drop_last() =~= a + b.drop_last());
        assert((a + b).last() == b.last());
        let (sa, na) = spec_walk(a, seen, dedup, disable);
        let (sb0, nb0) = spec_walk(b.drop_last(), na, dedup, disable);
        assert((sa + sb0).push(b.last()) =~= sa + sb0.push(b.last()));
    }
}

/// `true` iff some string of `v` equals `s`.
pub fn contains_str(v: &Vec<String>, s: &str) -> (r: bool)
    ensures
        r == string_views(v@).contains(s@),
{
    let mut i: usize = 0;
    while i < v.len()
        invariant
            i <= v@.len(),
            forall|k: int| 0 <= k < i ==> v@[k]@ != s@,
        decreases v@.len() - i,
    {
        if str_is(v[i].as_str(), s) {
            assert(string_views(v@)[i as int] == s@);
            return true;
        }
        i = i + 1;
    }
    assert forall|k: int| 0 <= k < string_views(v@).len() implies string_views(v@)[k] != s@ by {
        assert(string_views(v@)[k] == v@[k]@);
    }
    false
}

/// Select the plugins of one directory, in load order: sort the
/// candidates found there, then walk them (see [`spec_walk`]). With
/// `dedup`, `seen` carries the stems of higher-priority layers and gains
/// this directory's.
pub fn register_plugins_in(
    candidates: Vec<PluginCandidate>,
    seen: &mut Vec<String>,
    dedup: bool,
    disable: &Vec<String>,
) -> (r: Vec<PluginCandidate>)
    ensures
        (r@, string_views(final(seen)@)) == spec_walk(
            spec_sort(candidates@),
            string_views(old(seen)@),
            dedup,
            string_views(disable@),
        ),
{
    let sorted = sort_candidates(candidates);
    let ghost all = sorted@;
    let ghost seen0 = string_views(seen@);
    let n = sorted.len();
    let mut rest = sorted;
    let mut out: Vec<PluginCandidate> = Vec::new();
    let mut i: usize = 0;
    assert(all.skip(0) =~= all);
    assert(all.take(0) =~= Seq::<PluginCandidate>::empty());
    while rest.len() > 0
        invariant
            all.len() == n,
            i <= n,
            rest@ == all.skip(i as int),
            (out@, string_views(seen@)) == spec_walk(all.take(i as int), seen0, dedup, string_views(disable@)),
        decreases rest@.len(),
    {
        let c = rest.remove(0);
        proof {
            assert(all.take(i + 1).drop_last() =~= all.take(i as int));
            assert(all.take(i + 1).last() == c);
        }
        let shadowed = dedup && contains_str(seen, c.stem.as_str());
        if !shadowed {
            if dedup {
                let ghost before = seen@;
                seen.push(c.stem.clone());
                assert(string_views(seen@) =~= string_views(before).push(c.stem@));
            }
            if !contains_str(disable, c.stem.as_str()) {
                out.push(c);
            }
        }
        i = i + 1;
        assert(rest@ =~= all.skip(i as int));
    }
    assert(all.take(i as int) =~= all);
    out
}

/// The candidates of every present layer, each layer in load order,
/// layers in priority order. A layer without a `plugin/` directory is
/// `None`.
pub open spec fn spec_sorted_layers(layers: Seq<Option<Vec<PluginCandidate>>>) -> Seq<PluginCandidate>
    decreases layers.len(),
{
    if layers.len() == 0 {
        Seq::empty()
    } else {
        spec_sorted_layers(layers.drop_last()) + match layers.last() {
            Some(v) => spec_sort(v@),
            None => Seq::empty(),
        }
    }
}

/// The plugins that load, in load order: the sorted layers walked with
/// stem dedup, minus the disabled stems.
pub open spec fn spec_builtin_plan(
    layers: Seq<Option<Vec<PluginCandidate>>>,
    disable: Seq<Seq<char>>,
) -> Seq<PluginCandidate> {
    spec_walk(spec_sorted_layers(layers), Seq::empty(), true, disable).0
}

/// Select the bundled plugins of every runtime layer, walking layers
/// in priority order: a stem seen in a higher-priority layer shadows
/// the same stem further down, and stems on `disable` are skipped. An
/// empty runtime path loads nothing.
pub fn register_builtin_plugins(
    layers: Vec<Option<Vec<PluginCandidate>>>,
    disable: &Vec<String>,
) -> (r: Vec<PluginCandidate>)
    ensures
        r@ == spec_builtin_plan(layers@, string_views(disable@)),
{
    let ghost all = layers@;
    let ghost dis = string_views(disable@);
    let n = layers.len();
    let mut rest = layers;
    let mut seen: Vec<String> = Vec::new();
    let mut out: Vec<PluginCandidate> = Vec::new();
    let mut i: usize = 0;
    assert(all.skip(0) =~= all);
    assert(all.take(0) =~= Seq::<Option<Vec<PluginCandidate>>>::empty());
    assert(string_views(seen@) =~= Seq::<Seq<char>>::empty());
    while rest.len() > 0
        invariant
            all.len() == n,
            i <= n,
            rest@ == all.skip(i as int),
            dis == string_views(disable@),
            (out@, string_views(seen@)) == spec_walk(
                spec_sorted_layers(all.take(i as int)),
                Seq::empty(),
                true,
                dis,
            ),
        decreases rest@.len(),
    {
        let layer = rest.remove(0);
        proof {
            assert(all.take(i + 1).drop_last() =~= all.take(i as int));
            assert(all.take(i + 1).last() == layer);
        }
        let ghost prev = spec_sorted_layers(all.take(i as int));
        let ghost out0 = out@;
        let ghost seen0 = string_views(seen@);
        match layer {
            None => {
                assert(spec_sorted_layers(all.take(i + 1)) =~= prev);
            },
            Some(cands) => {
                let ghost cs = cands@;
                let mut sel = register_plugins_in(cands, &mut seen, true, disable);
                proof {
                    lemma_walk_concat(prev, spec_sort(cs), Seq::empty(), true, dis);
                    assert(spec_sorted_layers(all.take(i + 1)) == prev + spec_sort(cs));
                }
                out.append(&mut sel);
                assert(out@ =~= out0 + spec_walk(spec_sort(cs), seen0, true, dis).0);
            },
        }
        i = i + 1;
        assert(rest@ =~= all.skip(i as int));
    }
    assert(all.take(i as int) =~= all);
    out
}

// ── Laws of the selection ──────────────────────────────────────────

/// `x` is the stem of one of the first `n` candidates of `s`.
pub open spec fn stem_among(s: Seq<PluginCandidate>, n: int, x: Seq<char>) -> bool {
    exists|m: int| 0 <= m < n && (#[trigger] s[m]).stem@ == x
}

/// `c` is a candidate of `s` that no earlier candidate shares a stem
/// with.
pub open spec fn first_of_stem(s: Seq<PluginCandidate>, c: PluginCandidate) -> bool {
    exists|k: int|
        0 <= k < s.len() && #[trigger] s[k] == c && !stem_among(s, k, c.stem@)
}

proof fn lemma_walk_dedup(s: Seq<PluginCandidate>, seen0: Seq<Seq<char>>, dis: Seq<Seq<char>>)
    ensures
        ({
            let (sel, sn) = spec_walk(s, seen0, true, dis);
            &&& forall|x: Seq<char>| #[trigger] sn.contains(x) <==> (seen0.contains(x) || stem_among(s, s.len() as int, x))
            &&& forall|i: int| 0 <= i < sel.len() ==> sn.contains(#[trigger] sel[i].stem@)
            &&& forall|i: int| 0 <= i < sel.len() ==> !seen0.contains(#[trigger] sel[i].stem@) && !dis.contains(sel[i].stem@)
            &&& forall|i: int, j: int| 0 <= i < j < sel.len() ==> #[trigger] sel[i].stem@ != #[trigger] sel[j].stem@
            &&& forall|i: int| 0 <= i < sel.len() ==> first_of_stem(s, #[trigger] sel[i])
            &&& forall|k: int| 0 <= k < s.len() && !seen0.contains(#[trigger] s[k].stem@) && !dis.contains(s[k].stem@)
                ==> exists|i: int| 0 <= i < sel.len() && #[trigger] sel[i].stem@ == s[k].stem@
        }),
    decreases s.len(),
{
    if s.len() == 0 {
        let (sel, sn) = spec_walk(s, seen0, true, dis);
        assert forall|x: Seq<char>| #[trigger] sn.contains(x) <==> (seen0.contains(x) || stem_among(s, s.len() as int, x)) by {
        }
    } else {
        let p = s.drop_last();
        let c = s.last();
        lemma_walk_dedup(p, seen0, dis);
        let (sel0, sn0) = spec_walk(p, seen0, true, dis);
        let (sel, sn) = spec_walk(s, seen0, true, dis);
        assert forall|m: int| 0 <= m < p.len() implies #[trigger] s[m] == p[m] by {}
        assert(s[p.len() as int] == c);
        assert forall|x: Seq<char>| stem_among(s, s.len() as int, x) <==> (stem_among(p, p.len() as int, x) || x == c.stem@) by {
            if stem_among(s, s.len() as int, x) {
                let m = choose|m: int| 0 <= m < s.len() && (#[trigger] s[m]).stem@ == x;
                if m < p.len() {
                    assert(p[m] == s[m]);
                }
            }
            if stem_among(p, p.len() as int, x) {
                let m = choose|m: int| 0 <= m < p.len() && (#[trigger] p[m]).stem@ == x;
                assert(s[m] == p[m]);
            }
            if x == c.stem@ {
                assert(s[p.len() as int].stem@ == x);
            }
        }
        assert forall|k: int, c2: PluginCandidate| 0 <= k <= p.len() && stem_among(p, k, c2.stem@) implies stem_among(s, k, c2.stem@) by {
            let m = choose|m: int| 0 <= m < k && (#[trigger] p[m]).stem@ == c2.stem@;
            assert(s[m] == p[m]);
        }
        assert forall|k: int, c2: PluginCandidate| 0 <= k <= p.len() && stem_among(s, k, c2.stem@) implies stem_among(p, k, c2.stem@) by {
            let m = choose|m: int| 0 <= m < k && (#[trigger] s[m]).stem@ == c2.stem@;
            assert(p[m] == s[m]);
        }
        assert forall|i: int| 0 <= i < sel0.len() implies first_of_stem(s, #[trigger] sel0[i]) by {
            assert(first_of_stem(p, sel0[i]));
            let k = choose|k: int| 0 <= k < p.len() && #[trigger] p[k] == sel0[i] && !stem_among(p, k, sel0[i].stem@);
            assert(s[k] == sel0[i]);
            assert(!stem_among(s, k, sel0[i].stem@));
        }
        if sn0.contains(c.stem@) {
            assert forall|k: int| 0 <= k < s.len() && !seen0.contains(#[trigger] s[k].stem@) && !dis.contains(s[k].stem@)
                implies exists|i: int| 0 <= i < sel.len() && #[trigger] sel[i].stem@ == s[k].stem@ by {
                if k < p.len() {
                    assert(s[k] == p[k]);
                } else {
                    assert(s[k] == c);
                    assert(stem_among(p, p.len() as int, c.stem@));
                    let m = choose|m: int| 0 <= m < p.len() && (#[trigger] p[m]).stem@ == c.stem@;
                    assert(!seen0.contains(p[m].stem@));
                }
            }
        } else {
            let sn2 = sn0.push(c.stem@);
            assert forall|x: Seq<char>| #[trigger] sn2.contains(x) <==> (sn0.contains(x) || x == c.stem@) by {
                if sn2.contains(x) {
                    let m = choose|m: int| 0 <= m < sn2.len() && sn2[m] == x;
                    if m < sn0.len() {
                        assert(sn0[m] == x);
                    }
                }
                if sn0.contains(x) {
                    let m = choose|m: int| 0 <= m < sn0.len() && sn0[m] == x;
                    assert(sn2[m] == x);
                }
                if x == c.stem@ {
                    assert(sn2[sn0.len() as int] == x);
                }
            }
            assert(sn == sn2);
            if dis.contains(c.stem@) {
                assert(sel == sel0);
            } else {
                assert(sel == sel0.push(c));
                assert(!seen0.contains(c.stem@));
                assert forall|i: int| 0 <= i < sel.len() implies first_of_stem(s, #[trigger] sel[i]) by {
                    if i < sel0.len() {
                        assert(sel[i] == sel0[i]);
                    } else {
                        assert(sel[i] == c);
                        let k = p.len() as int;
                        assert(s[k] == c);
                        if stem_among(s, k, c.stem@) {
                            assert(stem_among(p, k, c.stem@));
                        }
                    }
                }
                assert forall|i: int, j: int| 0 <= i < j < sel.len() implies #[trigger] sel[i].stem@ != #[trigger] sel[j].stem@ by {
                    if j < sel0.len() {
                        assert(sel[i] == sel0[i] && sel[j] == sel0[j]);
                    } else {
                        assert(sel[i] == sel0[i] && sel[j] == c);
                        assert(sn0.contains(sel0[i].stem@));
                    }
                }
                assert forall|i: int| 0 <= i < sel.len() implies sn.contains(#[trigger] sel[i].stem@) by {
                    if i < sel0.len() {
                        assert(sel[i] == sel0[i]);
                        assert(sn0.contains(sel0[i].stem@));
                    }
                }
                assert forall|i: int| 0 <= i < sel.len() implies !seen0.contains(#[trigger] sel[i].stem@) && !dis.contains(sel[i].stem@) by {
                    if i < sel0.len() {
                        assert(sel[i] == sel0[i]);
                    }
                }
                assert forall|k: int| 0 <= k < s.len() && !seen0.contains(#[trigger] s[k].stem@) && !dis.contains(s[k].stem@)
                    implies exists|i: int| 0 <= i < sel.len() && #[trigger] sel[i].stem@ == s[k].stem@ by {
                    if k < p.len() {
                        assert(s[k] == p[k]);
                        let i = choose|i: int| 0 <= i < sel0.len() && #[trigger] sel0[i].stem@ == p[k].stem@;
                        assert(sel[i] == sel0[i]);
                    } else {
                        assert(sel[sel0.len() as int] == c);
                    }
                }
            }
        }
    }
}

/// No two plugins that load share a stem: a plugin in a higher-priority
/// layer shadows its namesakes further down.
pub proof fn law_plan_stems_distinct(layers: Seq<Option<Vec<PluginCandidate>>>, disable: Seq<Seq<char>>)
    ensures
        forall|i: int, j: int| 0 <= i < j < spec_builtin_plan(layers, disable).len()
            ==> #[trigger] spec_builtin_plan(layers, disable)[i].stem@ != #[trigger] spec_builtin_plan(layers, disable)[j].stem@,
{
    lemma_walk_dedup(spec_sorted_layers(layers), Seq::empty(), disable);
}

/// No plugin on the `disable` list loads.
pub proof fn law_plan_skips_disabled(layers: Seq<Option<Vec<PluginCandidate>>>, disable: Seq<Seq<char>>)
    ensures
        forall|i: int| 0 <= i < spec_builtin_plan(layers, disable).len()
            ==> !disable.contains(#[trigger] spec_builtin_plan(layers, disable)[i].stem@),
{
    lemma_walk_dedup(spec_sorted_layers(layers), Seq::empty(), disable);
}

/// Every plugin that loads is the first candidate of its stem in
/// priority order: the highest-priority layer wins, and within a layer
/// the flat file wins over the directory.
pub proof fn law_plan_first_wins(layers: Seq<Option<Vec<PluginCandidate>>>, disable: Seq<Seq<char>>)
    ensures
        forall|i: int| 0 <= i < spec_builtin_plan(layers, disable).len()
            ==> first_of_stem(spec_sorted_layers(layers), #[trigger] spec_builtin_plan(layers, disable)[i]),
{
    lemma_walk_dedup(spec_sorted_layers(layers), Seq::empty(), disable);
}

/// Every stem found in some layer and not disabled loads.
pub proof fn law_plan_complete(layers: Seq<Option<Vec<PluginCandidate>>>, disable: Seq<Seq<char>>)
    ensures
        forall|k: int| 0 <= k < spec_sorted_layers(layers).len()
            && !disable.contains(#[trigger] spec_sorted_layers(layers)[k].stem@)
            ==> exists|i: int| 0 <= i < spec_builtin_plan(layers, disable).len()
                && #[trigger] spec_builtin_plan(layers, disable)[i].stem@ == spec_sorted_layers(layers)[k].stem@,
{
    lemma_walk_dedup(spec_sorted_layers(layers), Seq::empty(), disable);
    let all = spec_sorted_layers(layers);
    let plan = spec_builtin_plan(layers, disable);
    assert forall|k: int| 0 <= k < all.len() && !disable.contains(#[trigger] all[k].stem@)
        implies exists|i: int| 0 <= i < plan.len() && #[trigger] plan[i].stem@ == all[k].stem@ by {
        assert(!Seq::<Seq<char>>::empty().contains(all[k].stem@));
    }
}

proof fn lemma_walk_no_dedup(s: Seq<PluginCandidate>, seen: Seq<Seq<char>>, dis: Seq<Seq<char>>)
    ensures
        spec_walk(s, seen, false, dis) == (s.filter(|c: PluginCandidate| !dis.contains(c.stem@)), seen),
    decreases s.len(),
{
    reveal(Seq::filter);
    if s.len() > 0 {
        lemma_walk_no_dedup(s.drop_last(), seen, dis);
    }
}

/// Walking one directory without stem dedup (the user plugin directory):
/// every plugin found there loads, in sorted order, except the disabled
/// ones, and `seen` is left alone.
pub proof fn law_dir_walk_without_dedup(candidates: Seq<PluginCandidate>, seen: Seq<Seq<char>>, disable: Seq<Seq<char>>)
    ensures
        spec_walk(spec_sort(candidates), seen, false, disable)
            == (spec_sort(candidates).filter(|c: PluginCandidate| !disable.contains(c.stem@)), seen),
{
    lemma_walk_no_dedup(spec_sort(candidates), seen, disable);
}

/// Walking one directory with stem dedup against the layers before it:
/// no plugin that loads shares its stem with one seen before or with
/// another that loads, none is disabled, each is the first of its stem
/// in sorted order, every stem found there that was neither seen nor
/// disabled loads, and `seen` gains exactly the stems found there.
pub proof fn law_dir_walk_with_dedup(candidates: Seq<PluginCandidate>, seen: Seq<Seq<char>>, disable: Seq<Seq<char>>)
    ensures
        ({
            let s = spec_sort(candidates);
            let (sel, sn) = spec_walk(s, seen, true, disable);
            &&& forall|x: Seq<char>| #[trigger] sn.contains(x) <==> (seen.contains(x) || stem_among(s, s.len() as int, x))
            &&& forall|i: int| 0 <= i < sel.len() ==> !seen.contains(#[trigger] sel[i].stem@) && !disable.contains(sel[i].stem@)
            &&& forall|i: int, j: int| 0 <= i < j < sel.len() ==> #[trigger] sel[i].stem@ != #[trigger] sel[j].stem@
            &&& forall|i: int| 0 <= i < sel.len() ==> first_of_stem(s, #[trigger] sel[i])
            &&& forall|k: int| 0 <= k < s.len() && !seen.contains(#[trigger] s[k].stem@) && !disable.contains(s[k].stem@)
                ==> exists|i: int| 0 <= i < sel.len() && #[trigger] sel[i].stem@ == s[k].stem@
        }),
{
    lemma_walk_dedup(spec_sort(candidates), seen, disable);
}

} // verus!
