use paas::{
    escalate, signal_target, stop_reply, Escalation, ExitStatus, LineSplitter, LogStep,
    ProcessState, RpcCode, StopStep, Supervisor, SupervisorAction, SupervisorEvent,
    SIGTERM_TIMEOUT_SECS,
};

const SIGKILL: i32 = 9;

/// Reads from `pos` on until the reader would wait or the sequence ends.
fn drain(state: &ProcessState, pos: &mut usize) -> (Vec<Vec<u8>>, bool) {
    let mut out = Vec::new();
    loop {
        match state.next_line(pos) {
            LogStep::Line(l) => out.push(l.as_ref().clone()),
            LogStep::End => return (out, true),
            LogStep::Wait => return (out, false),
        }
    }
}

/// Feeds output bytes through a splitter into the shared state.
fn capture(state: &mut ProcessState, splitter: &mut LineSplitter, bytes: &[u8]) {
    for line in splitter.feed(bytes) {
        assert!(state.push_line(line));
    }
}

/// Hands an event to the supervisor and carries out a publication.
fn deliver(sup: &mut Supervisor, state: &mut ProcessState, ev: SupervisorEvent) -> SupervisorAction {
    let action = sup.step(ev);
    if let SupervisorAction::Publish(s) = action {
        assert!(state.finish(s));
    }
    action
}

#[test]
fn echo_yields_one_line_then_code_zero() {
    let mut state = ProcessState::new();
    let mut sup = Supervisor::new();
    let mut early = 0usize;
    assert!(matches!(state.next_line(&mut early), LogStep::Wait));

    let mut out = LineSplitter::new();
    capture(&mut state, &mut out, b"foo\n");
    assert!(out.finish().is_none());
    assert_eq!(deliver(&mut sup, &mut state, SupervisorEvent::OutputClosed), SupervisorAction::Continue);
    assert!(sup.awaits_exit());
    let action = deliver(&mut sup, &mut state, SupervisorEvent::ChildExited(ExitStatus::Code(0)));
    assert_eq!(action, SupervisorAction::Publish(ExitStatus::Code(0)));
    assert!(sup.is_done());

    assert_eq!(drain(&state, &mut early), (vec![b"foo".to_vec()], true));
    let mut late = 0usize;
    assert_eq!(drain(&state, &mut late), (vec![b"foo".to_vec()], true));
    assert_eq!(state.status().unwrap().code(), Some(0));
}

#[test]
fn output_with_pauses_is_read_in_order() {
    let mut state = ProcessState::new();
    let mut sup = Supervisor::new();
    let mut out = LineSplitter::new();
    let mut pos = 0usize;

    capture(&mut state, &mut out, b"hel");
    assert_eq!(drain(&state, &mut pos), (vec![], false));
    capture(&mut state, &mut out, b"lo\n");
    assert_eq!(drain(&state, &mut pos), (vec![b"hello".to_vec()], false));
    capture(&mut state, &mut out, b"beautiful\nworld\n");
    deliver(&mut sup, &mut state, SupervisorEvent::OutputClosed);
    deliver(&mut sup, &mut state, SupervisorEvent::ChildExited(ExitStatus::Code(0)));
    assert_eq!(
        drain(&state, &mut pos),
        (vec![b"beautiful".to_vec(), b"world".to_vec()], true)
    );
    assert_eq!(state.status(), Some(ExitStatus::Code(0)));
}

#[test]
fn trapped_sigterm_exits_with_its_code_and_output_is_kept() {
    let mut state = ProcessState::new();
    let mut sup = Supervisor::new();
    let mut out = LineSplitter::new();
    let mut pos = 0usize;

    capture(&mut state, &mut out, b"started\n");
    assert_eq!(drain(&state, &mut pos), (vec![b"started".to_vec()], false));

    assert_eq!(state.begin_stop(), StopStep::Fire);
    assert_eq!(deliver(&mut sup, &mut state, SupervisorEvent::StopRequested), SupervisorAction::Terminate);
    assert_eq!(escalate(true), Escalation::Done);
    assert_eq!(state.begin_stop(), StopStep::InProgress);
    assert_eq!(stop_reply(StopStep::InProgress), Err(RpcCode::Aborted));

    capture(&mut state, &mut out, b"exited cleanly\n");
    deliver(&mut sup, &mut state, SupervisorEvent::ChildExited(ExitStatus::Code(23)));
    assert_eq!(state.status(), None);
    deliver(&mut sup, &mut state, SupervisorEvent::OutputClosed);
    assert_eq!(state.status(), Some(ExitStatus::Code(23)));

    assert_eq!(drain(&state, &mut pos), (vec![b"exited cleanly".to_vec()], true));
    assert_eq!(state.begin_stop(), StopStep::Finished(ExitStatus::Code(23)));
    assert_eq!(state.begin_stop(), StopStep::Finished(ExitStatus::Code(23)));
    assert_eq!(stop_reply(StopStep::Finished(ExitStatus::Code(23))), Ok(()));
}

#[test]
fn ignored_sigterm_ends_in_sigkill() {
    let mut state = ProcessState::new();
    let mut sup = Supervisor::new();
    let mut out = LineSplitter::new();
    capture(&mut state, &mut out, b"started\n");

    assert_eq!(state.begin_stop(), StopStep::Fire);
    assert_eq!(deliver(&mut sup, &mut state, SupervisorEvent::StopRequested), SupervisorAction::Terminate);
    assert_eq!(SIGTERM_TIMEOUT_SECS, 5);
    assert_eq!(escalate(false), Escalation::Kill);
    let killed = ExitStatus::from_parts(None, Some(SIGKILL));
    deliver(&mut sup, &mut state, SupervisorEvent::ChildExited(killed));
    deliver(&mut sup, &mut state, SupervisorEvent::OutputClosed);
    let status = state.status().unwrap();
    assert_eq!(status.signal(), Some(SIGKILL));
    assert_eq!(status.code(), None);
}

#[test]
fn exit_status_keeps_code_or_signal() {
    let c = ExitStatus::from_parts(Some(3), None);
    assert_eq!(c, ExitStatus::Code(3));
    assert_eq!((c.code(), c.signal()), (Some(3), None));
    let s = ExitStatus::from_parts(None, Some(15));
    assert_eq!(s, ExitStatus::Signal(15));
    assert_eq!((s.code(), s.signal()), (None, Some(15)));
}

#[test]
fn no_line_after_exit_status() {
    let mut state = ProcessState::new();
    assert!(state.push_line(b"a".to_vec()));
    assert!(state.finish(ExitStatus::Code(1)));
    assert!(!state.push_line(b"b".to_vec()));
    assert!(!state.finish(ExitStatus::Code(2)));
    assert_eq!(state.len(), 1);
    assert_eq!(state.status(), Some(ExitStatus::Code(1)));
}

#[test]
fn readers_agree_at_every_index() {
    let mut state = ProcessState::new();
    let mut first = 0usize;
    state.push_line(b"x".to_vec());
    let (a1, _) = drain(&state, &mut first);
    state.push_line(b"y".to_vec());
    state.push_line(b"z".to_vec());
    let (a2, _) = drain(&state, &mut first);
    let mut second = 0usize;
    let (b, _) = drain(&state, &mut second);
    assert_eq!([a1, a2].concat(), b);
}

#[test]
fn stop_before_exit_fires_once() {
    let mut state = ProcessState::new();
    assert_eq!(state.begin_stop(), StopStep::Fire);
    assert_eq!(state.begin_stop(), StopStep::InProgress);
    assert_eq!(state.begin_stop(), StopStep::InProgress);
    state.finish(ExitStatus::Signal(SIGKILL));
    assert_eq!(state.begin_stop(), StopStep::Finished(ExitStatus::Signal(SIGKILL)));
}

#[test]
fn stop_after_exit_does_not_fire() {
    let mut state = ProcessState::new();
    state.finish(ExitStatus::Code(0));
    assert_eq!(state.begin_stop(), StopStep::Finished(ExitStatus::Code(0)));
    assert_eq!(state.begin_stop(), StopStep::Finished(ExitStatus::Code(0)));
}

#[test]
fn supervisor_ignores_events_it_does_not_await() {
    let mut sup = Supervisor::new();
    assert!(sup.awaits_output() && sup.awaits_stop() && !sup.awaits_exit());
    assert_eq!(sup.step(SupervisorEvent::ChildExited(ExitStatus::Code(0))), SupervisorAction::Continue);
    assert!(!sup.is_done());
    assert_eq!(sup.step(SupervisorEvent::StopRequested), SupervisorAction::Terminate);
    assert_eq!(sup.step(SupervisorEvent::StopRequested), SupervisorAction::Continue);
    assert!(sup.awaits_exit() && sup.awaits_output() && !sup.awaits_stop());
}

#[test]
fn stop_after_reaping_sends_no_signal() {
    let mut sup = Supervisor::new();
    assert_eq!(sup.step(SupervisorEvent::OutputClosed), SupervisorAction::Continue);
    assert_eq!(
        sup.step(SupervisorEvent::ChildExited(ExitStatus::Code(4))),
        SupervisorAction::Publish(ExitStatus::Code(4))
    );
    assert_eq!(sup.step(SupervisorEvent::StopRequested), SupervisorAction::Continue);
}

#[test]
fn failed_wait_ends_supervision_without_status() {
    let mut sup = Supervisor::new();
    sup.step(SupervisorEvent::OutputClosed);
    assert_eq!(sup.step(SupervisorEvent::WaitFailed), SupervisorAction::Continue);
    assert!(sup.is_done());
}

#[test]
fn signal_target_skips_reaped_and_out_of_range_pids() {
    assert_eq!(signal_target(None), None);
    assert_eq!(signal_target(Some(4321)), Some(4321));
    assert_eq!(signal_target(Some(i32::MAX as u32)), Some(i32::MAX));
    assert_eq!(signal_target(Some(u32::MAX)), None);
}

#[test]
fn lines_split_on_newline_and_drop_carriage_return() {
    let mut s = LineSplitter::new();
    assert_eq!(s.feed(b"a\r\nb\n\nc"), vec![b"a".to_vec(), b"b".to_vec(), b"".to_vec()]);
    assert_eq!(s.feed(b"d\r"), Vec::<Vec<u8>>::new());
    assert_eq!(s.finish(), Some(b"cd\r".to_vec()));
}

#[test]
fn lines_do_not_depend_on_chunking() {
    let text = b"hello\nbeautiful\r\nworld\n";
    let mut whole = LineSplitter::new();
    let all = whole.feed(text);
    let mut pieces = LineSplitter::new();
    let mut got = Vec::new();
    for c in text.chunks(3) {
        got.extend(pieces.feed(c));
    }
    assert_eq!(all, got);
    assert_eq!(got, vec![b"hello".to_vec(), b"beautiful".to_vec(), b"world".to_vec()]);
}

#[test]
fn lines_keep_non_utf8_bytes() {
    let mut s = LineSplitter::new();
    assert_eq!(s.feed(&[0xff, 0xfe, b'\n']), vec![vec![0xffu8, 0xfe]]);
}

#[test]
fn empty_args_are_invalid() {
    assert_eq!(paas::check_exec_args(&vec![]), Err(RpcCode::InvalidArgument));
    assert_eq!(paas::check_exec_args(&vec!["echo".to_string()]), Ok(()));
}
