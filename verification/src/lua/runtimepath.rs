//! Runtime directory discovery — locates the on-disk ttymap data dir
//! that holds bundled Lua plugins.
//!
//! Resolution order (first hit wins): `$TTYMAP_RUNTIME`, then
//! `$XDG_DATA_HOME/ttymap`, then the source checkout's `runtime/`. A
//! candidate counts when it is a directory holding a `lua/`
//! subdirectory. Probing the filesystem and the environment is the
//! caller's part; this module decides.
use vstd::prelude::*;
use crate::text::concat;

verus! {

/// Returned when no candidate is a valid runtime directory. Carries
/// the candidate list so the caller can render a "we tried these
/// paths" message.
#[derive(Debug, Clone, PartialEq, Eq)]
pub struct RuntimeDirError {
    pub candidates: Vec<String>,
}

/// The message line naming one tried path.
pub open spec fn spec_candidate_line(p: Seq<char>) -> Seq<char> {
    "  - "@ + p + "\n"@
}

/// The lines naming every tried path, in order.
pub open spec fn spec_candidate_lines(ps: Seq<Seq<char>>) -> Seq<char>
    decreases ps.len(),
{
    if ps.len() == 0 {
        Seq::empty()
    } else {
        spec_candidate_lines(ps.drop_last()) + spec_candidate_line(ps.last())
    }
}

/// The full error message for a list of tried paths.
pub open spec fn spec_error_message(ps: Seq<Seq<char>>) -> Seq<char> {
    "ttymap runtime not found. Tried (in order):\n"@ + spec_candidate_lines(ps)
        + "\nDid you `make install`? See README.md for install instructions."@
}

/// The views of a list of strings.
pub open spec fn views(v: Seq<String>) -> Seq<Seq<char>> {
    v.map_values(|s: String| s@)
}

impl RuntimeDirError {
    /// The user-facing message: a header, one line per tried path in
    /// order, and a hint to run `make install`.
    pub fn message(&self) -> (r: String)
        ensures
            r@ == spec_error_message(views(self.candidates@)),
    {
        let mut out = "ttymap runtime not found. Tried (in order):\n".to_owned();
        let ghost head = out@;
        let mut i: usize = 0;
        while i < self.candidates.len()
            invariant
                i <= self.candidates@.len(),
                head == "ttymap runtime not found. Tried (in order):\n"@,
                out@ == head + spec_candidate_lines(views(self.candidates@).take(i as int)),
            decreases self.candidates@.len() - i,
        {
            let line = concat("  - ", self.candidates[i].as_str());
            let line = concat(line.as_str(), "\n");
            out.append(line.as_str());
            assert(views(self.candidates@).take(i + 1).drop_last() =~= views(self.candidates@).take(i as int));
            i = i + 1;
            assert(out@ =~= head + spec_candidate_lines(views(self.candidates@).take(i as int)));
        }
        assert(views(self.candidates@).take(self.candidates@.len() as int) =~= views(self.candidates@));
        out.append("\nDid you `make install`? See README.md for install instructions.");
        out
    }
}

/// Index of the first valid candidate, if any.
pub open spec fn spec_first_valid(cs: Seq<(String, bool)>) -> Option<int>
    decreases cs.len(),
{
    if cs.len() == 0 {
        None
    } else if cs[0].1 {
        Some(0)
    } else {
        match spec_first_valid(cs.drop_first()) {
            Some(i) => Some(i + 1),
            None => None,
        }
    }
}

/// Pick the runtime directory from the candidates in resolution order,
/// each paired with whether it is a valid runtime directory. The first
/// valid one wins; when none is valid the error lists every candidate.
pub fn resolve_runtime_dir(candidates: Vec<(String, bool)>) -> (r: Result<String, RuntimeDirError>)
    ensures
        match spec_first_valid(candidates@) {
            Some(i) => r == Ok::<String, RuntimeDirError>(candidates@[i].0),
            None => r is Err && views(r->Err_0.candidates@) == candidates@.map_values(
                |c: (String, bool)| c.0@,
            ),
        },
{
    let mut tried: Vec<String> = Vec::new();
    let mut i: usize = 0;
    assert(candidates@.skip(0) =~= candidates@);
    while i < candidates.len()
        invariant
            i <= candidates@.len(),
            views(tried@) == candidates@.take(i as int).map_values(|c: (String, bool)| c.0@),
            forall|j: int| 0 <= j < i ==> !candidates@[j].1,
            spec_first_valid(candidates@) == match spec_first_valid(candidates@.skip(i as int)) {
                Some(k) => Some(k + i),
                None => None::<int>,
            },
        decreases candidates@.len() - i,
    {
        assert(candidates@.skip(i as int)[0] == candidates@[i as int]);
        if candidates[i].1 {
            return Ok(candidates[i].0.clone());
        }
        assert(candidates@.skip(i as int).drop_first() =~= candidates@.skip(i + 1));
        let ghost before = tried@;
        tried.push(candidates[i].0.clone());
        assert(candidates@.take(i + 1) =~= candidates@.take(i as int).push(candidates@[i as int]));
        assert(views(tried@) =~= views(before).push(candidates@[i as int].0@));
        i = i + 1;
    }
    assert(candidates@.take(candidates@.len() as int) =~= candidates@);
    Err(RuntimeDirError { candidates: tried })
}

/// The process-wide runtime directory, set once at startup.
#[derive(Debug, Clone, PartialEq, Eq)]
pub struct RuntimeDirSlot {
    pub dir: Option<String>,
}

impl RuntimeDirSlot {
    /// A slot with no directory set yet.
    pub fn new() -> (r: RuntimeDirSlot)
        ensures
            r.dir is None,
    {
        RuntimeDirSlot { dir: None }
    }
}

/// Cache `dir` so later Lua states can reach the bundled libraries.
/// Idempotent — the first caller wins, later attempts are ignored.
pub fn set_runtime_dir(slot: &mut RuntimeDirSlot, dir: String)
    ensures
        final(slot).dir == (match old(slot).dir {
            Some(d) => Some(d),
            None => Some(dir),
        }),
{
    if slot.dir.is_none() {
        slot.dir = Some(dir);
    }
}

/// The cached runtime dir; `None` when none has been set yet.
pub fn runtime_dir(slot: &RuntimeDirSlot) -> (r: Option<&str>)
    ensures
        match slot.dir {
            Some(d) => r is Some && r->0@ == d@,
            None => r is None,
        },
{
    match &slot.dir {
        Some(d) => Some(d.as_str()),
        None => None,
    }
}

/// Point the slot at the source checkout's `runtime/` directory when
/// nothing has been set yet (used by tests that load bundled scripts).
pub fn ensure_runtime_dir_for_tests(slot: &mut RuntimeDirSlot, manifest_dir: &str)
    ensures
        final(slot).dir == (match old(slot).dir {
            Some(d) => Some(d),
            None => Some(final(slot).dir->0),
        }),
        old(slot).dir is None ==> final(slot).dir->0@ == manifest_dir@ + "/runtime"@,
{
    let dev = concat(manifest_dir, "/runtime");
    set_runtime_dir(slot, dev);
}

/// The first `set_runtime_dir` wins: whatever is set afterwards, the
/// slot keeps the first directory.
pub proof fn law_first_set_wins(first: String, later: Seq<String>)
    ensures
        ({
            let after_first = Some(first);
            let fold = later.fold_left(after_first, |acc: Option<String>, d: String| match acc {
                Some(x) => Some(x),
                None => Some(d),
            });
            fold == Some(first)
        }),
    decreases later.len(),
{
    if later.len() > 0 {
        law_first_set_wins(first, later.drop_last());
    }
}

} // verus!
