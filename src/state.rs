use vstd::prelude::*;

use std::sync::Arc;

use crate::shared::share;
use crate::status::ExitStatus;

verus! {

/// The abstract value of a [`ProcessState`].
pub struct ProcessView {
    /// The captured lines, in the order they were appended.
    pub logs: Seq<Seq<u8>>,
    /// `None` while the child runs; set once, when it has been reaped.
    pub exit_status: Option<ExitStatus>,
    /// Whether the single stop request is still available.
    pub stop_armed: bool,
}

/// What a log reader does next.
#[derive(Debug)]
pub enum LogStep {
    /// Hand out this line, shared with the state; the reader's cursor has
    /// moved past it.
    Line(Arc<Vec<u8>>),
    /// Every line has been read and the child has ended: the sequence is over.
    End,
    /// Nothing new yet: wait for the next sign of progress and ask again.
    Wait,
}

/// The outcome of asking a process to stop.
#[derive(Clone, Copy, Debug, PartialEq, Eq, Structural)]
pub enum StopStep {
    /// The child has already ended with this status.
    Finished(ExitStatus),
    /// This call took the stop request: signal the supervisor, then wait for
    /// the exit status to be set.
    Fire,
    /// Another call has already taken the stop request and the child is still
    /// running.
    InProgress,
}

/// The state that one supervised process shares between its supervisor, its
/// handle and every reader of its output.
///
/// The captured lines only grow, the exit status is written at most once and
/// no line is added after it, and the stop request is taken at most once.
pub struct ProcessState {
    logs: Vec<Arc<Vec<u8>>>,
    exit_status: Option<ExitStatus>,
    stop_armed: bool,
}

/// The lines of `logs`, as byte sequences.
pub open spec fn lines_view(logs: Seq<Arc<Vec<u8>>>) -> Seq<Seq<u8>> {
    logs.map_values(|l: Arc<Vec<u8>>| (*l)@)
}

impl View for ProcessState {
    type V = ProcessView;

    closed spec fn view(&self) -> ProcessView {
        ProcessView {
            logs: lines_view(self.logs@),
            exit_status: self.exit_status,
            stop_armed: self.stop_armed,
        }
    }
}

/// `b` is a state that `a` can turn into: lines are only appended, and only
/// while the child runs; the exit status, once set, stays; the stop request,
/// once taken, stays taken.
pub open spec fn evolves(a: ProcessView, b: ProcessView) -> bool {
    &&& a.logs.len() <= b.logs.len()
    &&& forall|i: int| 0 <= i < a.logs.len() ==> #[trigger] b.logs[i] == a.logs[i]
    &&& a.exit_status is Some ==> b.exit_status == a.exit_status && b.logs == a.logs
    &&& !a.stop_armed ==> !b.stop_armed
}

/// `b` is reached from `a` by the supervisor alone: it appends lines and sets
/// the exit status, but leaves the stop request as it was.
pub open spec fn supervised(a: ProcessView, b: ProcessView) -> bool {
    evolves(a, b) && b.stop_armed == a.stop_armed
}

/// What a reader whose cursor stands at `pos` does next, on state `v`.
pub open spec fn log_step(v: ProcessView, pos: int) -> Option<Option<Seq<u8>>> {
    if 0 <= pos < v.logs.len() {
        Some(Some(v.logs[pos]))
    } else if v.exit_status is Some {
        Some(None)
    } else {
        None
    }
}

/// The outcome of a stop request made on state `v`.
pub open spec fn stop_outcome(v: ProcessView) -> StopStep {
    match v.exit_status {
        Some(e) => StopStep::Finished(e),
        None => if v.stop_armed {
            StopStep::Fire
        } else {
            StopStep::InProgress
        },
    }
}

/// The state after a stop request made on state `v`.
pub open spec fn after_stop(v: ProcessView) -> ProcessView {
    if stop_outcome(v) is Fire {
        ProcessView { stop_armed: false, ..v }
    } else {
        v
    }
}

impl ProcessState {
    /// A fresh state: no output, running, stop request available.
    pub fn new() -> (r: ProcessState)
        ensures
            r@.logs == Seq::<Seq<u8>>::empty(),
            r@.exit_status is None,
            r@.stop_armed,
    {
        ProcessState { logs: Vec::new(), exit_status: None, stop_armed: true }
    }

    /// The number of lines captured so far.
    pub fn len(&self) -> (r: usize)
        ensures
            r == self@.logs.len(),
    {
        self.logs.len()
    }

    /// The exit status, or `None` while the child runs.
    pub fn status(&self) -> (r: Option<ExitStatus>)
        ensures
            r == self@.exit_status,
    {
        self.exit_status
    }

    /// Appends one captured line. Once the exit status is set the state takes
    /// no more lines: the call then changes nothing and returns `false`.
    pub fn push_line(&mut self, line: Vec<u8>) -> (r: bool)
        ensures
            r == (old(self)@.exit_status is None),
            r ==> final(self)@ == (ProcessView {
                logs: old(self)@.logs.push(line@),
                ..old(self)@
            }),
            !r ==> final(self)@ == old(self)@,
            evolves(old(self)@, final(self)@),
    {
        if self.exit_status.is_some() {
            return false;
        }
        let ghost before = self.logs@;
        self.logs.push(Arc::new(line));
        proof {
            assert(lines_view(self.logs@) =~= lines_view(before).push(line@));
        }
        true
    }

    /// Records the exit status of the reaped child. It is written once: a
    /// second call changes nothing and returns `false`.
    pub fn finish(&mut self, status: ExitStatus) -> (r: bool)
        ensures
            r == (old(self)@.exit_status is None),
            r ==> final(self)@ == (ProcessView { exit_status: Some(status), ..old(self)@ }),
            !r ==> final(self)@ == old(self)@,
            evolves(old(self)@, final(self)@),
    {
        if self.exit_status.is_some() {
            return false;
        }
        self.exit_status = Some(status);
        true
    }

    /// One step of a log reader whose cursor is `*pos`: the line under the
    /// cursor if there is one (the cursor then moves on), the end of the
    /// sequence if every line has been read and the child has ended, and
    /// otherwise a request to wait for progress.
    pub fn next_line(&self, pos: &mut usize) -> (r: LogStep)
        ensures
            log_step(self@, *old(pos) as int) matches Some(Some(l)) ==> r matches LogStep::Line(
                x,
            ) && (*x)@ == l && *final(pos) == *old(pos) + 1,
            log_step(self@, *old(pos) as int) == Some(None::<Seq<u8>>) ==> r is End && *final(pos)
                == *old(pos),
            log_step(self@, *old(pos) as int) is None ==> r is Wait && *final(pos) == *old(pos),
    {
        if *pos < self.logs.len() {
            let line = share(&self.logs[*pos]);
            *pos = *pos + 1;
            LogStep::Line(line)
        } else if self.exit_status.is_some() {
            LogStep::End
        } else {
            LogStep::Wait
        }
    }

    /// Asks the process to stop. If the child has ended, its status is
    /// returned. Otherwise the first call takes the stop request (`Fire`) and
    /// every later one is told that a stop is under way.
    pub fn begin_stop(&mut self) -> (r: StopStep)
        ensures
            r == stop_outcome(old(self)@),
            final(self)@ == after_stop(old(self)@),
            evolves(old(self)@, final(self)@),
    {
        match self.exit_status {
            Some(e) => StopStep::Finished(e),
            None => {
                if self.stop_armed {
                    self.stop_armed = false;
                    StopStep::Fire
                } else {
                    StopStep::InProgress
                }
            },
        }
    }
}

/// A state evolves into itself, and evolving is transitive.
pub proof fn lemma_evolves_trans(a: ProcessView, b: ProcessView, c: ProcessView)
    requires
        evolves(a, b),
        evolves(b, c),
    ensures
        evolves(a, a),
        evolves(a, c),
{
    assert forall|i: int| 0 <= i < a.logs.len() implies #[trigger] c.logs[i] == a.logs[i] by {
        assert(b.logs[i] == a.logs[i]);
    }
}

/// Two readers of one process agree line by line: whatever state each reads
/// from, as long as one state evolved into the other, the line each gets at
/// the same index is the same.
pub proof fn lemma_readers_agree(s1: ProcessView, s2: ProcessView, i: int)
    requires
        evolves(s1, s2),
        0 <= i < s1.logs.len(),
    ensures
        log_step(s1, i) matches Some(Some(l1)) && log_step(s2, i) matches Some(Some(l2)) && l1
            == l2,
{
    assert(s2.logs[i] == s1.logs[i]);
}

/// A reader's sequence ends only once the exit status is set, and from then on
/// the status stays set in every later state.
pub proof fn lemma_end_means_finished(s: ProcessView, pos: int, later: ProcessView)
    requires
        log_step(s, pos) == Some(None::<Seq<u8>>),
        evolves(s, later),
    ensures
        s.exit_status is Some,
        later.exit_status == s.exit_status,
{
}

/// The stop requests made one after another on a process, from its start, call
/// `k` seeing state `calls[k]`, which the supervisor reached from the previous
/// call's result: at most
/// one of them takes the stop request, a call told that a stop is under way
/// comes after the one that took it and while the child still runs, and every
/// call that finds the child ended gets the same status, which every later
/// call sees too.
pub proof fn lemma_stop_sequence(calls: Seq<ProcessView>)
    requires
        calls.len() > 0 ==> calls[0].stop_armed,
        forall|k: int|
            0 <= k < calls.len() - 1 ==> supervised(after_stop(#[trigger] calls[k]), calls[k + 1]),
    ensures
        forall|j: int, k: int|
            0 <= j < k < calls.len() ==> !(stop_outcome(#[trigger] calls[j]) is Fire
                && stop_outcome(#[trigger] calls[k]) is Fire),
        forall|k: int|
            0 <= k < calls.len() && #[trigger] stop_outcome(calls[k]) is InProgress ==> calls[k].exit_status
                is None && exists|j: int| 0 <= j < k && stop_outcome(#[trigger] calls[j]) is Fire,
        forall|j: int, k: int|
            0 <= j < k < calls.len() && #[trigger] stop_outcome(calls[j]) is Finished ==> calls[k].exit_status
                == calls[j].exit_status && #[trigger] stop_outcome(calls[k]) == stop_outcome(calls[j]),
{
    lemma_stop_chain(calls);
    assert forall|j: int, k: int|
        0 <= j < k < calls.len() implies !(stop_outcome(#[trigger] calls[j]) is Fire
            && stop_outcome(#[trigger] calls[k]) is Fire) by {
        if stop_outcome(calls[j]) is Fire {
            assert(evolves(after_stop(calls[j]), calls[k]));
        }
    }
    assert forall|k: int|
        0 <= k < calls.len() && #[trigger] stop_outcome(calls[k]) is InProgress implies calls[k].exit_status
            is None && exists|j: int| 0 <= j < k && stop_outcome(#[trigger] calls[j]) is Fire by {
        lemma_first_disarm(calls, k);
    }
    assert forall|j: int, k: int|
        0 <= j < k < calls.len() && #[trigger] stop_outcome(calls[j]) is Finished implies calls[k].exit_status
            == calls[j].exit_status && #[trigger] stop_outcome(calls[k]) == stop_outcome(calls[j]) by {
        assert(evolves(after_stop(calls[j]), calls[k]));
    }
}

/// Along such a sequence, the result of call `j` evolves into what call `k`
/// sees, for every `j < k`.
proof fn lemma_stop_chain(calls: Seq<ProcessView>)
    requires
        forall|k: int|
            0 <= k < calls.len() - 1 ==> supervised(after_stop(#[trigger] calls[k]), calls[k + 1]),
    ensures
        forall|j: int, k: int|
            0 <= j < k < calls.len() ==> evolves(after_stop(#[trigger] calls[j]), #[trigger] calls[k]),
    decreases calls.len(),
{
    if calls.len() > 1 {
        let init = calls.drop_last();
        lemma_stop_chain(init);
        let n = calls.len() - 1;
        assert forall|j: int, k: int|
            0 <= j < k < calls.len() implies evolves(after_stop(#[trigger] calls[j]), #[trigger] calls[k]) by {
            if k == n {
                if j < n - 1 {
                    assert(init[j] == calls[j] && init[n - 1] == calls[n - 1]);
                    assert(evolves(after_stop(calls[j]), calls[n - 1]));
                    lemma_after_stop_evolves(calls[n - 1]);
                    lemma_evolves_trans(after_stop(calls[j]), calls[n - 1], after_stop(calls[n - 1]));
                    lemma_evolves_trans(after_stop(calls[j]), after_stop(calls[n - 1]), calls[n]);
                }
            } else {
                assert(init[j] == calls[j] && init[k] == calls[k]);
            }
        }
    }
}

/// A stop request turns a state into one that it evolves into.
proof fn lemma_after_stop_evolves(v: ProcessView)
    ensures
        evolves(v, after_stop(v)),
{
}

/// If the stop request is taken when call `k` comes, some earlier call took it.
proof fn lemma_first_disarm(calls: Seq<ProcessView>, k: int)
    requires
        forall|k: int|
            0 <= k < calls.len() - 1 ==> supervised(after_stop(#[trigger] calls[k]), calls[k + 1]),
        0 <= k < calls.len(),
        !calls[k].stop_armed,
        calls[0].stop_armed,
    ensures
        exists|j: int| 0 <= j < k && stop_outcome(#[trigger] calls[j]) is Fire,
    decreases k,
{
    if calls[k - 1].stop_armed {
        if !(stop_outcome(calls[k - 1]) is Fire) {
            assert(after_stop(calls[k - 1]) == calls[k - 1]);
        }
        assert(stop_outcome(calls[k - 1]) is Fire);
    } else {
        lemma_first_disarm(calls, k - 1);
    }
}

/// While at most two of the stop requests made on a process find it running,
/// at most one of them is told that a stop is under way.
pub proof fn lemma_single_in_progress(calls: Seq<ProcessView>)
    requires
        calls.len() > 0 ==> calls[0].stop_armed,
        forall|k: int|
            0 <= k < calls.len() - 1 ==> supervised(after_stop(#[trigger] calls[k]), calls[k + 1]),
        forall|a: int, b: int, c: int|
            0 <= a < b < c < calls.len() ==> !(#[trigger] calls[a].exit_status is None
                && #[trigger] calls[b].exit_status is None && #[trigger] calls[c].exit_status is None),
    ensures
        forall|j: int, k: int|
            0 <= j < k < calls.len() ==> !(stop_outcome(#[trigger] calls[j]) is InProgress
                && stop_outcome(#[trigger] calls[k]) is InProgress),
{
    lemma_stop_sequence(calls);
    assert forall|j: int, k: int|
        0 <= j < k < calls.len() implies !(stop_outcome(#[trigger] calls[j]) is InProgress
            && stop_outcome(#[trigger] calls[k]) is InProgress) by {
        if stop_outcome(calls[j]) is InProgress && stop_outcome(calls[k]) is InProgress {
            let i = choose|i: int| 0 <= i < j && stop_outcome(#[trigger] calls[i]) is Fire;
            assert(calls[i].exit_status is None);
            assert(calls[j].exit_status is None);
            assert(calls[k].exit_status is None);
        }
    }
}

} // verus!
