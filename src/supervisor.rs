use vstd::prelude::*;

use crate::status::ExitStatus;

verus! {

/// Something that happened to a supervised child.
#[derive(Clone, Copy, Debug, PartialEq, Eq, Structural)]
pub enum SupervisorEvent {
    /// Both output readers have reached the end of their streams.
    OutputClosed,
    /// The stop request was fired.
    StopRequested,
    /// The child was reaped with this status.
    ChildExited(ExitStatus),
    /// Waiting for the child failed; it is treated as reaped, with no status.
    WaitFailed,
}

/// What the supervisor's driver does after an event.
#[derive(Clone, Copy, Debug, PartialEq, Eq, Structural)]
pub enum SupervisorAction {
    /// Nothing: keep waiting for the next event.
    Continue,
    /// Terminate the child: SIGTERM, then SIGKILL after the grace period.
    Terminate,
    /// Record this exit status in the shared state and wake every waiter.
    Publish(ExitStatus),
}

/// The abstract value of a [`Supervisor`].
pub struct SupervisorView {
    /// Still in the first phase: output and stop are awaited, exit is not.
    pub live: bool,
    pub output_closed: bool,
    pub stop_fired: bool,
    pub reaped: bool,
    /// The status the child was reaped with, if it was and waiting succeeded.
    pub exit: Option<ExitStatus>,
    pub published: bool,
}

/// The decisions of the task that owns one child.
///
/// It first awaits the end of the child's output and the stop request. Once
/// either comes, it also awaits the child's exit, and it keeps reading output
/// after a stop so that what a signal handler prints is still captured. The
/// exit status is published once, when the child has been reaped and its
/// output has ended, so that every line comes before it. The child is
/// terminated at most once.
pub struct Supervisor {
    live: bool,
    output_closed: bool,
    stop_fired: bool,
    reaped: bool,
    exit: Option<ExitStatus>,
    published: bool,
}

impl View for Supervisor {
    type V = SupervisorView;

    closed spec fn view(&self) -> SupervisorView {
        SupervisorView {
            live: self.live,
            output_closed: self.output_closed,
            stop_fired: self.stop_fired,
            reaped: self.reaped,
            exit: self.exit,
            published: self.published,
        }
    }
}

/// The states the supervisor can be in.
pub open spec fn supervisor_wf(v: SupervisorView) -> bool {
    &&& v.live ==> !v.output_closed && !v.stop_fired && !v.reaped
    &&& v.exit is Some ==> v.reaped
    &&& v.published ==> v.reaped && v.output_closed && v.exit is Some
    &&& v.reaped && v.output_closed && v.exit is Some ==> v.published
}

/// The supervisor's work is over: the child is reaped and its output ended.
pub open spec fn supervisor_done(v: SupervisorView) -> bool {
    v.reaped && v.output_closed
}

/// Whether `e` is one of the events the supervisor awaits in state `v`.
pub open spec fn awaited(v: SupervisorView, e: SupervisorEvent) -> bool {
    match e {
        SupervisorEvent::OutputClosed => !v.output_closed,
        SupervisorEvent::StopRequested => !v.stop_fired,
        SupervisorEvent::ChildExited(_) => !v.live && !v.reaped,
        SupervisorEvent::WaitFailed => !v.live && !v.reaped,
    }
}

/// The state after event `e` in state `v`. An event that is not awaited
/// changes nothing.
pub open spec fn after_event(v: SupervisorView, e: SupervisorEvent) -> SupervisorView {
    if !awaited(v, e) {
        v
    } else {
        match e {
            SupervisorEvent::OutputClosed => SupervisorView {
                live: false,
                output_closed: true,
                published: v.reaped && v.exit is Some,
                ..v
            },
            SupervisorEvent::StopRequested => SupervisorView { live: false, stop_fired: true, ..v },
            SupervisorEvent::ChildExited(s) => SupervisorView {
                reaped: true,
                exit: Some(s),
                published: v.output_closed,
                ..v
            },
            SupervisorEvent::WaitFailed => SupervisorView { reaped: true, ..v },
        }
    }
}

/// What the driver does after event `e` in state `v`.
pub open spec fn action_for(v: SupervisorView, e: SupervisorEvent) -> SupervisorAction {
    if !awaited(v, e) {
        SupervisorAction::Continue
    } else {
        match e {
            SupervisorEvent::OutputClosed => if v.reaped && v.exit is Some {
                SupervisorAction::Publish(v.exit->Some_0)
            } else {
                SupervisorAction::Continue
            },
            SupervisorEvent::StopRequested => if v.reaped {
                SupervisorAction::Continue
            } else {
                SupervisorAction::Terminate
            },
            SupervisorEvent::ChildExited(s) => if v.output_closed {
                SupervisorAction::Publish(s)
            } else {
                SupervisorAction::Continue
            },
            SupervisorEvent::WaitFailed => SupervisorAction::Continue,
        }
    }
}

impl Supervisor {
    /// The supervisor of a child that was just spawned.
    pub fn new() -> (r: Supervisor)
        ensures
            r@ == initial_supervisor(),
            supervisor_wf(r@),
    {
        Supervisor {
            live: true,
            output_closed: false,
            stop_fired: false,
            reaped: false,
            exit: None,
            published: false,
        }
    }

    /// Whether the end of the child's output is still awaited.
    pub fn awaits_output(&self) -> (r: bool)
        ensures
            r == !self@.output_closed,
    {
        !self.output_closed
    }

    /// Whether the stop request is still awaited.
    pub fn awaits_stop(&self) -> (r: bool)
        ensures
            r == !self@.stop_fired,
    {
        !self.stop_fired
    }

    /// Whether the child's exit is awaited: not in the first phase, and not
    /// once it has been reaped.
    pub fn awaits_exit(&self) -> (r: bool)
        ensures
            r == (!self@.live && !self@.reaped),
    {
        !self.live && !self.reaped
    }

    /// Whether the supervisor's work is over.
    pub fn is_done(&self) -> (r: bool)
        ensures
            r == supervisor_done(self@),
    {
        self.reaped && self.output_closed
    }

    /// Takes in one event and says what to do about it.
    pub fn step(&mut self, event: SupervisorEvent) -> (r: SupervisorAction)
        requires
            supervisor_wf(old(self)@),
        ensures
            supervisor_wf(final(self)@),
            final(self)@ == after_event(old(self)@, event),
            r == action_for(old(self)@, event),
    {
        match event {
            SupervisorEvent::OutputClosed => {
                if self.output_closed {
                    return SupervisorAction::Continue;
                }
                self.live = false;
                self.output_closed = true;
                match self.exit {
                    Some(s) => {
                        self.published = true;
                        SupervisorAction::Publish(s)
                    },
                    None => SupervisorAction::Continue,
                }
            },
            SupervisorEvent::StopRequested => {
                if self.stop_fired {
                    return SupervisorAction::Continue;
                }
                self.live = false;
                self.stop_fired = true;
                if self.reaped {
                    SupervisorAction::Continue
                } else {
                    SupervisorAction::Terminate
                }
            },
            SupervisorEvent::ChildExited(s) => {
                if self.live || self.reaped {
                    return SupervisorAction::Continue;
                }
                self.reaped = true;
                self.exit = Some(s);
                if self.output_closed {
                    self.published = true;
                    SupervisorAction::Publish(s)
                } else {
                    SupervisorAction::Continue
                }
            },
            SupervisorEvent::WaitFailed => {
                if self.live || self.reaped {
                    return SupervisorAction::Continue;
                }
                self.reaped = true;
                SupervisorAction::Continue
            },
        }
    }
}

/// The state after the events `evs`, one after another, starting from `v`.
pub open spec fn run(v: SupervisorView, evs: Seq<SupervisorEvent>) -> SupervisorView
    decreases evs.len(),
{
    if evs.len() == 0 {
        v
    } else {
        run(after_event(v, evs[0]), evs.drop_first())
    }
}

/// How many times, over the events `evs` from state `v`, the driver is told
/// to terminate the child.
pub open spec fn terminations(v: SupervisorView, evs: Seq<SupervisorEvent>) -> nat
    decreases evs.len(),
{
    if evs.len() == 0 {
        0
    } else {
        (if action_for(v, evs[0]) is Terminate {
            1nat
        } else {
            0nat
        }) + terminations(after_event(v, evs[0]), evs.drop_first())
    }
}

/// How many times, over the events `evs` from state `v`, the driver is told
/// to publish an exit status.
pub open spec fn publications(v: SupervisorView, evs: Seq<SupervisorEvent>) -> nat
    decreases evs.len(),
{
    if evs.len() == 0 {
        0
    } else {
        (if action_for(v, evs[0]) is Publish {
            1nat
        } else {
            0nat
        }) + publications(after_event(v, evs[0]), evs.drop_first())
    }
}

/// Whatever events come, the child is terminated at most once and its exit
/// status is published at most once, both counted from the supervisor's start;
/// when the work is over, the status has been published unless waiting for
/// the child failed.
pub proof fn lemma_supervisor_run(evs: Seq<SupervisorEvent>)
    ensures
        terminations(initial_supervisor(), evs) <= 1,
        publications(initial_supervisor(), evs) <= 1,
        supervisor_wf(run(initial_supervisor(), evs)),
        supervisor_done(run(initial_supervisor(), evs)) && run(initial_supervisor(), evs).exit is Some
            ==> run(initial_supervisor(), evs).published,
{
    lemma_run_counts(initial_supervisor(), evs);
}

/// The state of a supervisor that was just created.
pub open spec fn initial_supervisor() -> SupervisorView {
    SupervisorView {
        live: true,
        output_closed: false,
        stop_fired: false,
        reaped: false,
        exit: None,
        published: false,
    }
}

proof fn lemma_run_counts(v: SupervisorView, evs: Seq<SupervisorEvent>)
    requires
        supervisor_wf(v),
    ensures
        terminations(v, evs) <= (if v.stop_fired {
            0nat
        } else {
            1nat
        }),
        publications(v, evs) <= (if v.published {
            0nat
        } else {
            1nat
        }),
        supervisor_wf(run(v, evs)),
    decreases evs.len(),
{
    if evs.len() > 0 {
        lemma_run_counts(after_event(v, evs[0]), evs.drop_first());
    }
}

/// The status a child is reaped with is the one published: if its output has
/// already ended, the exit itself publishes that status; otherwise the end of
/// the output, when it comes, does.
pub proof fn lemma_publishes_reaped_status(v: SupervisorView, s: ExitStatus)
    requires
        supervisor_wf(v),
        !v.live,
        !v.reaped,
    ensures
        v.output_closed ==> action_for(v, SupervisorEvent::ChildExited(s))
            == SupervisorAction::Publish(s),
        !v.output_closed ==> action_for(
            after_event(v, SupervisorEvent::ChildExited(s)),
            SupervisorEvent::OutputClosed,
        ) == SupervisorAction::Publish(s),
{
}

} // verus!
