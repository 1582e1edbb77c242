use vivarium::exit::ExitKind;
use vivarium::failure::{Failure, Locus, Namespace};
use vivarium::session::{refuse, session_exit, SessionError, SessionOutcome};

const SOCKET: &str = "/run/user/1000/vivarium/api/control.sock";

fn parts(failure: &Failure) -> (Namespace, String, String, String, Option<String>, ExitKind) {
    match failure {
        Failure::Diagnosed { diagnostic, code } => (
            diagnostic.namespace,
            diagnostic.id.clone(),
            match &diagnostic.locus {
                Locus::Named(name) => format!("named:{name}"),
                Locus::File(path) => format!("file:{path}"),
            },
            diagnostic.why.clone(),
            diagnostic.hint.clone(),
            *code,
        ),
        Failure::Usage(error) => panic!("a usage error: {}", error.message),
    }
}

#[test]
fn a_guest_status_is_returned_verbatim() {
    assert!(matches!(session_exit(SOCKET, Ok(SessionOutcome::Exited(0))), Ok(ExitKind::GuestStatus(0))));
    assert!(matches!(session_exit(SOCKET, Ok(SessionOutcome::Exited(130))), Ok(ExitKind::GuestStatus(130))));
}

#[test]
fn a_lost_channel_is_an_io_failure_with_no_guessed_status() {
    let failure = session_exit(SOCKET, Ok(SessionOutcome::Lost("the exit status".to_owned()))).err().unwrap();
    let (namespace, id, locus, why, hint, code) = parts(&failure);
    assert_eq!(namespace, Namespace::Vm);
    assert_eq!(id, "session-transport-lost");
    assert_eq!(locus, "named:control socket");
    assert_eq!(why, "the session ended while waiting for the exit status");
    assert_eq!(hint, None);
    assert_eq!(code, ExitKind::IoErr);
}

#[test]
fn an_agent_refusal_is_classified_not_quoted() {
    let failure = session_exit(SOCKET, Ok(SessionOutcome::Refused("spawn".to_owned()))).err().unwrap();
    let (namespace, id, _, _, _, code) = parts(&failure);
    assert_eq!((namespace, id.as_str(), code), (Namespace::Guest, "spawn-failed", ExitKind::Unavailable));
}

#[test]
fn a_socket_that_does_not_answer_is_unavailable_at_the_socket() {
    let (_, id, locus, _, hint, code) = parts(&refuse(SOCKET, SessionError::NotListening));
    assert_eq!(id, "control-socket-unavailable");
    assert_eq!(locus, format!("file:{SOCKET}"));
    assert_eq!(hint.as_deref(), Some("run `viv status` to see what this project's VM is doing"));
    assert_eq!(code, ExitKind::Unavailable);
    let (_, id, _, _, hint, code) = parts(&refuse(SOCKET, SessionError::Identity));
    assert_eq!(id, "boot-identity-mismatch");
    assert_eq!(hint.as_deref(), Some("run `viv stop` and start again"));
    assert_eq!(code, ExitKind::Unavailable);
    let failure = session_exit(SOCKET, Err(SessionError::Transport("read a frame".to_owned()))).err().unwrap();
    let (_, id, _, why, hint, code) = parts(&failure);
    assert_eq!(id, "control-socket-failed");
    assert_eq!(why, "the control socket failed while trying to read a frame");
    assert_eq!(hint, None);
    assert_eq!(code, ExitKind::IoErr);
}
