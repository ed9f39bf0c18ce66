use vstd::prelude::*;

verus! {

/// How the output file is put in place.
#[derive(Clone, Copy, Debug, PartialEq, Eq, Structural)]
pub enum WriteMode {
    /// Create the destination and write it in place.
    Direct,
    /// Write a temporary file beside the destination, sync it, then rename
    /// it onto the destination.
    Atomic,
}

/// One step of writing the output, performed by the caller.
#[derive(Clone, Copy, Debug, PartialEq, Eq, Structural)]
pub enum WriteAction {
    CreateTemp,
    WriteTemp,
    FlushTemp,
    SyncTemp,
    RenameOntoDest,
    CreateDest,
    WriteDest,
    FlushDest,
    SyncDest,
    /// Sync the destination's directory; a failure here is ignored.
    SyncDir,
    /// Everything needed has been done.
    Finish,
    /// A step failed; the write is abandoned.
    Fail,
}

/// Whether an action changes the file at the destination path.
pub open spec fn touches_destination(a: WriteAction) -> bool {
    match a {
        WriteAction::RenameOntoDest | WriteAction::CreateDest | WriteAction::WriteDest
        | WriteAction::FlushDest | WriteAction::SyncDest => true,
        _ => false,
    }
}

/// The steps of a write, in order; `has_dir` tells whether the destination
/// has a parent directory to sync.
pub open spec fn plan(mode: WriteMode, has_dir: bool) -> Seq<WriteAction> {
    let body = match mode {
        WriteMode::Atomic => seq![
            WriteAction::CreateTemp,
            WriteAction::WriteTemp,
            WriteAction::FlushTemp,
            WriteAction::SyncTemp,
            WriteAction::RenameOntoDest,
        ],
        WriteMode::Direct => seq![
            WriteAction::CreateDest,
            WriteAction::WriteDest,
            WriteAction::FlushDest,
            WriteAction::SyncDest,
        ],
    };
    if has_dir { body.push(WriteAction::SyncDir) } else { body }
}

/// The progress of one write: which planned step comes next, and whether
/// a step has failed.
#[derive(Clone, Copy, Debug, PartialEq, Eq, Structural)]
pub struct DurableWriter {
    pub mode: WriteMode,
    pub has_dir: bool,
    pub step: usize,
    pub failed: bool,
}

/// The action that a writer in state `w` asks for.
pub open spec fn action_of(w: DurableWriter) -> WriteAction {
    let p = plan(w.mode, w.has_dir);
    if w.failed {
        WriteAction::Fail
    } else if w.step < p.len() {
        p[w.step as int]
    } else {
        WriteAction::Finish
    }
}

/// The state after the action of `w` was performed with outcome `ok`.
/// Only a failed directory sync is not fatal.
pub open spec fn next_state(w: DurableWriter, ok: bool) -> DurableWriter {
    let p = plan(w.mode, w.has_dir);
    if w.failed || w.step >= p.len() {
        w
    } else if ok || p[w.step as int] == WriteAction::SyncDir {
        DurableWriter { step: (w.step + 1) as usize, ..w }
    } else {
        DurableWriter { failed: true, ..w }
    }
}

/// A fresh writer.
pub open spec fn start_state(mode: WriteMode, has_dir: bool) -> DurableWriter {
    DurableWriter { mode, has_dir, step: 0, failed: false }
}

/// The state of a fresh writer after actions with the given outcomes.
pub open spec fn after(mode: WriteMode, has_dir: bool, outcomes: Seq<bool>) -> DurableWriter
    decreases outcomes.len(),
{
    if outcomes.len() == 0 {
        start_state(mode, has_dir)
    } else {
        next_state(after(mode, has_dir, outcomes.drop_last()), outcomes.last())
    }
}

impl DurableWriter {
    /// A writer that has performed no step yet.
    pub fn new(mode: WriteMode, has_dir: bool) -> (r: DurableWriter)
        ensures
            r == start_state(mode, has_dir),
    {
        DurableWriter { mode, has_dir, step: 0, failed: false }
    }

    fn plan_len(&self) -> (r: usize)
        ensures
            r == plan(self.mode, self.has_dir).len(),
    {
        let body: usize = match self.mode {
            WriteMode::Atomic => 5,
            WriteMode::Direct => 4,
        };
        if self.has_dir { body + 1 } else { body }
    }

    fn planned(&self) -> (r: WriteAction)
        requires
            self.step < plan(self.mode, self.has_dir).len(),
        ensures
            r == plan(self.mode, self.has_dir)[self.step as int],
    {
        match self.mode {
            WriteMode::Atomic => match self.step {
                0 => WriteAction::CreateTemp,
                1 => WriteAction::WriteTemp,
                2 => WriteAction::FlushTemp,
                3 => WriteAction::SyncTemp,
                4 => WriteAction::RenameOntoDest,
                _ => WriteAction::SyncDir,
            },
            WriteMode::Direct => match self.step {
                0 => WriteAction::CreateDest,
                1 => WriteAction::WriteDest,
                2 => WriteAction::FlushDest,
                3 => WriteAction::SyncDest,
                _ => WriteAction::SyncDir,
            },
        }
    }

    /// The action that the caller must perform next.
    pub fn action(&self) -> (r: WriteAction)
        ensures
            r == action_of(*self),
    {
        if self.failed {
            WriteAction::Fail
        } else if self.step < self.plan_len() {
            self.planned()
        } else {
            WriteAction::Finish
        }
    }

    /// Records the outcome of the action last asked for.
    pub fn advance(&mut self, ok: bool)
        ensures
            *final(self) == next_state(*old(self), ok),
    {
        if self.failed || self.step >= self.plan_len() {
        } else if ok || self.planned() == WriteAction::SyncDir {
            self.step = self.step + 1;
        } else {
            self.failed = true;
        }
    }
}

proof fn lemma_progress(mode: WriteMode, has_dir: bool, outcomes: Seq<bool>)
    ensures
        ({
            let w = after(mode, has_dir, outcomes);
            let p = plan(mode, has_dir);
            &&& w.mode == mode && w.has_dir == has_dir
            &&& (!w.failed && w.step < p.len()) ==> w.step == outcomes.len()
                && forall|j: int| 0 <= j < outcomes.len() ==> outcomes[j] || p[j] == WriteAction::SyncDir
        }),
    decreases outcomes.len(),
{
    if outcomes.len() > 0 {
        let prev = outcomes.drop_last();
        lemma_progress(mode, has_dir, prev);
        let w = after(mode, has_dir, prev);
        let p = plan(mode, has_dir);
        let w2 = after(mode, has_dir, outcomes);
        if !w2.failed && w2.step < p.len() {
            assert(w.step < p.len());
            assert forall|j: int| 0 <= j < outcomes.len() implies outcomes[j] || p[j] == WriteAction::SyncDir by {
                if j < prev.len() {
                    assert(outcomes[j] == prev[j]);
                }
            }
        }
    }
}

/// In atomic mode the destination is changed only by the rename, and the
/// rename is asked for only once the temporary file was created, written,
/// flushed and synced, each successfully. So a write that stops at any
/// earlier point leaves the destination as it was.
pub proof fn lemma_atomic_destination_untouched_until_synced(has_dir: bool, outcomes: Seq<bool>)
    ensures
        touches_destination(action_of(after(WriteMode::Atomic, has_dir, outcomes))) ==> {
            &&& action_of(after(WriteMode::Atomic, has_dir, outcomes)) == WriteAction::RenameOntoDest
            &&& outcomes.len() == 4
            &&& forall|j: int| 0 <= j < 4 ==> outcomes[j]
            &&& plan(WriteMode::Atomic, has_dir).take(4) == seq![
                WriteAction::CreateTemp,
                WriteAction::WriteTemp,
                WriteAction::FlushTemp,
                WriteAction::SyncTemp,
            ]
        },
{
    lemma_progress(WriteMode::Atomic, has_dir, outcomes);
    let p = plan(WriteMode::Atomic, has_dir);
    assert(p.take(4) =~= seq![
        WriteAction::CreateTemp,
        WriteAction::WriteTemp,
        WriteAction::FlushTemp,
        WriteAction::SyncTemp,
    ]);
    let w = after(WriteMode::Atomic, has_dir, outcomes);
    if touches_destination(action_of(w)) {
        assert(!w.failed && w.step < p.len());
        assert(w.step == 4);
        assert forall|j: int| 0 <= j < 4 implies outcomes[j] by {
            assert(p[j] != WriteAction::SyncDir);
        }
    }
}

/// A failed directory sync never makes the write fail.
pub proof fn lemma_dir_sync_failure_ignored(w: DurableWriter)
    ensures
        action_of(w) == WriteAction::SyncDir ==> action_of(next_state(w, false)) != WriteAction::Fail,
{
}

/// A write whose every step succeeds runs its whole plan and finishes.
pub proof fn lemma_success_finishes(mode: WriteMode, has_dir: bool, outcomes: Seq<bool>)
    requires
        outcomes.len() == plan(mode, has_dir).len(),
        forall|j: int| 0 <= j < outcomes.len() ==> outcomes[j],
    ensures
        action_of(after(mode, has_dir, outcomes)) == WriteAction::Finish,
{
    lemma_steps_all_ok(mode, has_dir, outcomes);
}

proof fn lemma_steps_all_ok(mode: WriteMode, has_dir: bool, outcomes: Seq<bool>)
    requires
        outcomes.len() <= plan(mode, has_dir).len(),
        forall|j: int| 0 <= j < outcomes.len() ==> outcomes[j],
    ensures
        after(mode, has_dir, outcomes) == (DurableWriter {
            mode,
            has_dir,
            step: outcomes.len() as usize,
            failed: false,
        }),
    decreases outcomes.len(),
{
    if outcomes.len() > 0 {
        lemma_steps_all_ok(mode, has_dir, outcomes.drop_last());
    }
}

} // verus!
