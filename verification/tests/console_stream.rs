use vivarium::console::{
    after_poll, follow_begin, follow_step, stream_exit, FollowAction, FollowEvent, FollowPhase, Identity, StreamDecision,
    StreamOutcome, STABLE_EOF_POLLS,
};
use vivarium::attach::{nothing_attached, nothing_attached_exit, streaming_outro};
use vivarium::exit::ExitKind;
use vivarium::failure::{Failure, Locus, Namespace};
use vivarium::lifecycle::{Resources, State};

fn finish_of(action: FollowAction) -> (u64, bool, Option<Identity>) {
    match action {
        FollowAction::Finish { forwarded, flush, open } => (forwarded, flush, open),
        _ => panic!("the poll was expected to finish"),
    }
}

#[test]
fn a_poll_drains_the_open_generation_and_keeps_it_when_the_path_is_unchanged() {
    let id = Identity { device: 8, inode: 100 };
    let (phase, action) = follow_begin(Some(id));
    assert!(matches!(action, FollowAction::Read));
    let (phase, action) = follow_step(phase, FollowEvent::Read(10));
    assert!(matches!(action, FollowAction::Read));
    let (phase, action) = follow_step(phase, FollowEvent::Read(5));
    assert!(matches!(action, FollowAction::Read));
    let (phase, action) = follow_step(phase, FollowEvent::Read(0));
    assert!(matches!(action, FollowAction::Inspect));
    let (_, action) = follow_step(phase, FollowEvent::PathIs(Some(id)));
    assert_eq!(finish_of(action), (15, true, Some(id)));
}

#[test]
fn a_rotation_drains_the_old_generation_then_opens_the_new_one() {
    let old = Identity { device: 8, inode: 100 };
    let new = Identity { device: 8, inode: 101 };
    let (phase, _) = follow_begin(Some(old));
    let (phase, _) = follow_step(phase, FollowEvent::Read(4));
    let (phase, _) = follow_step(phase, FollowEvent::Read(0));
    let (phase, action) = follow_step(phase, FollowEvent::PathIs(Some(new)));
    assert!(matches!(action, FollowAction::Open));
    assert_eq!(phase, FollowPhase::Closed { forwarded: 4 });
    let (phase, action) = follow_step(phase, FollowEvent::Opened { identity: new });
    assert!(matches!(action, FollowAction::Read));
    let (phase, _) = follow_step(phase, FollowEvent::Read(3));
    let (phase, _) = follow_step(phase, FollowEvent::Read(0));
    let (_, action) = follow_step(phase, FollowEvent::PathIs(Some(new)));
    assert_eq!(finish_of(action), (7, true, Some(new)));
}

#[test]
fn a_missing_capture_is_quiet_and_a_torn_down_one_is_closed() {
    let (phase, action) = follow_begin(None);
    assert!(matches!(action, FollowAction::Open));
    let (_, action) = follow_step(phase, FollowEvent::Absent);
    assert_eq!(finish_of(action), (0, false, None));
    let id = Identity { device: 1, inode: 2 };
    let (phase, _) = follow_begin(Some(id));
    let (phase, _) = follow_step(phase, FollowEvent::Read(0));
    let (_, action) = follow_step(phase, FollowEvent::PathIs(None));
    assert_eq!(finish_of(action), (0, false, None));
    let (_, action) = follow_step(FollowPhase::Closed { forwarded: 0 }, FollowEvent::Failed("denied".to_owned()));
    assert!(matches!(action, FollowAction::Fail(m) if m == "denied"));
}

#[test]
fn the_stream_ends_only_after_a_run_of_quiet_polls_once_the_vm_left_running() {
    assert_eq!(STABLE_EOF_POLLS, 3);
    assert_eq!(after_poll(2, 5, true, State::Built), (0, StreamDecision::Continue));
    assert_eq!(after_poll(1, 0, false, State::Built), (1, StreamDecision::Continue));
    assert_eq!(after_poll(2, 0, true, State::Running), (0, StreamDecision::Continue));
    assert_eq!(after_poll(2, 0, true, State::Stopping), (0, StreamDecision::Continue));
    let mut quiet: u32 = 0;
    let mut polls = 0;
    loop {
        let (q, decision) = after_poll(quiet, 0, true, State::Built);
        polls += 1;
        quiet = q;
        if decision == StreamDecision::DrainAndEnd {
            break;
        }
    }
    assert_eq!(polls, 3);
}

#[test]
fn a_finished_stream_maps_to_the_attached_exit() {
    assert!(matches!(stream_exit(StreamOutcome::Ended), Ok(ExitKind::Success)));
    assert!(matches!(stream_exit(StreamOutcome::Detached), Ok(ExitKind::Success)));
    let broken = StreamOutcome::Io { broken_pipe: true, error: "Broken pipe".to_owned() };
    assert!(matches!(stream_exit(broken), Ok(ExitKind::Success)));
    let io = StreamOutcome::Io { broken_pipe: false, error: "disk gone".to_owned() };
    match stream_exit(io) {
        Err(Failure::Diagnosed { diagnostic, code }) => {
            assert_eq!(code, ExitKind::IoErr);
            assert_eq!(diagnostic.namespace, Namespace::Vm);
            assert_eq!(diagnostic.id, "console-stream");
            assert_eq!(diagnostic.why, "disk gone");
            assert!(matches!(diagnostic.locus, Locus::Named(ref n) if n == "console capture"));
        }
        _ => panic!("an unreadable capture is a failure"),
    }
    match stream_exit(StreamOutcome::TaskFailed("panicked".to_owned())) {
        Err(Failure::Diagnosed { diagnostic, code }) => {
            assert_eq!(code, ExitKind::Software);
            assert_eq!(diagnostic.namespace, Namespace::Internal);
            assert_eq!(diagnostic.id, "console-stream-task");
        }
        _ => panic!("a task that died is a failure"),
    }
}

#[test]
fn an_attached_start_says_why_nothing_was_attached_or_that_the_stream_opened() {
    assert_eq!(
        nothing_attached("`api` is already running\n"),
        "`api` is already running\n`--attach` streams only a boot this command performs, so nothing was attached\n"
    );
    assert_eq!(
        streaming_outro(Resources { mem_mib: 2048, vcpu: 2 }),
        "running · 2048 MiB · 2 vcpu · streaming the console; Ctrl-C detaches"
    );
    assert_eq!(nothing_attached_exit(None), ExitKind::Success);
    assert_eq!(nothing_attached_exit(Some(130)), ExitKind::Success);
    assert_eq!(nothing_attached_exit(Some(143)), ExitKind::GuestStatus(143));
}
