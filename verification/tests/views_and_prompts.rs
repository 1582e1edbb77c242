use vivarium::attach::signal_exit;
use vivarium::exit::ExitKind;
use vivarium::failure::Failure;
use vivarium::fleet::{missing_note, near_ceiling};
use vivarium::prompt::{confirm, is_affirmative, Answer, PromptError, Question, Transcript};
use vivarium::render::bytes;
use vivarium::update::{requested_names, ImageBase};

#[test]
fn signal_exit_maps_sigint_to_success_and_the_rest_to_their_status() {
    assert!(matches!(signal_exit(128 + 2), ExitKind::Success));
    assert!(matches!(signal_exit(128 + 1), ExitKind::GuestStatus(129)));
    assert!(matches!(signal_exit(128 + 3), ExitKind::GuestStatus(131)));
    assert!(matches!(signal_exit(128 + 15), ExitKind::GuestStatus(143)));
}

#[test]
fn near_ceiling_is_ninety_percent_of_a_known_pair() {
    let mib = 1024 * 1024_u64;
    assert!(near_ceiling(Some(922 * mib), Some(1024)));
    assert!(!near_ceiling(Some(900 * mib), Some(1024)));
    assert!(near_ceiling(Some(8 * 1024 * mib), Some(8 * 1024)));
    assert!(!near_ceiling(None, Some(1024)));
    assert!(!near_ceiling(Some(mib), None));
    assert!(!near_ceiling(Some(0), Some(0)));
}

#[test]
fn missing_note_names_each_declaration() {
    assert_eq!(missing_note(&Vec::new()), "");
    let note = missing_note(&vec![("rust-web".to_owned(), "/home/alice/backend".to_owned())]);
    assert!(note.starts_with("warning: 1 declared workspace directory no longer exists:"));
    assert!(note.contains("rust-web  →  /home/alice/backend"));
    assert!(note.contains("unmounted filesystem"));
}

fn ask(answer: &str) -> (bool, String) {
    let question = Question {
        headline: "destroy `demo`?".to_owned(),
        scope: vec!["state: /s/projects/demo".to_owned()],
        spared: vec!["the manifest binding".to_owned()],
    };
    let input = if answer.is_empty() {
        Answer::Closed
    } else {
        let end = answer.find('\n').map(|i| i + 1).unwrap_or(answer.len());
        Answer::Line(answer[..end].to_owned())
    };
    let mut output = Transcript { text: String::new(), writable: true };
    let confirmed = confirm(&question, &input, &mut output).unwrap();
    (confirmed, output.text)
}

#[test]
fn only_an_explicit_yes_is_a_yes() {
    for affirmative in ["y\n", "Y\n", "yes\n", "YES\n", "  yes  \n", "Yes"] {
        assert!(ask(affirmative).0, "{affirmative:?}");
    }
    for negative in ["", "\n", "n\n", "no\n", "yeah\n", "1\n", "true\n", " \n"] {
        assert!(!ask(negative).0, "{negative:?}");
    }
}

#[test]
fn affirmation_is_a_whole_answer_not_a_prefix() {
    assert!(is_affirmative("\tY\r\n"));
    assert!(!is_affirmative("ye"));
    assert!(!is_affirmative("yess"));
}

#[test]
fn the_question_carries_its_whole_scope_and_what_survives() {
    let (_, rendered) = ask("n\n");
    assert!(rendered.contains("state: /s/projects/demo"), "{rendered}");
    assert!(rendered.contains("kept: the manifest binding"), "{rendered}");
    assert!(rendered.contains("destroy `demo`? [y/N] "), "{rendered}");
}

#[test]
fn a_closed_answer_stream_is_a_no_on_its_own_line() {
    let (confirmed, rendered) = ask("");
    assert!(!confirmed);
    assert!(rendered.ends_with("[y/N] \n"), "{rendered}");
}

#[test]
fn a_question_that_cannot_be_shown_is_never_an_approval() {
    let question = Question {
        headline: "destroy?".to_owned(),
        scope: vec!["everything".to_owned()],
        spared: Vec::new(),
    };
    let mut broken = Transcript { text: String::new(), writable: false };
    assert_eq!(
        confirm(&question, &Answer::Line("y\n".to_owned()), &mut broken),
        Err(PromptError::Write)
    );
    let mut output = Transcript { text: String::new(), writable: true };
    assert_eq!(confirm(&question, &Answer::Unreadable, &mut output), Err(PromptError::Read));
}

#[test]
fn bytes_take_the_tables_units() {
    assert_eq!(bytes(2_254_857_830), "2.1 GiB");
    assert_eq!(bytes(8 * 1024 * 1024 * 1024), "8 GiB");
    assert_eq!(bytes(34_359_738_368), "32 GiB");
    assert_eq!(bytes(512 * 1024 * 1024), "512 MiB");
    assert_eq!(bytes(900), "900 B");
    assert_eq!(bytes(0), "0 B");
}

fn base(nixpkgs: bool, microvm: bool) -> ImageBase {
    ImageBase { input_name: "my-base".to_owned(), declares_nixpkgs: nixpkgs, declares_microvm: microvm }
}

#[test]
fn requested_and_translated_stay_separate_and_unknown_is_usage() {
    let inputs = vec!["nixpkgs".to_owned(), "my-base".to_owned(), "nixpkgs".to_owned()];
    let declared: Vec<String> = Vec::new();
    let with_base = base(true, false);
    let (requested, translated) = requested_names(&inputs, &declared, Some(&with_base)).unwrap();
    assert_eq!(requested, vec!["nixpkgs", "my-base"]);
    assert_eq!(translated, vec!["my-base"]);

    let first = inputs[..1].to_vec();
    let undeclared = base(false, false);
    let (requested, translated) = requested_names(&first, &declared, Some(&undeclared)).unwrap();
    assert_eq!(requested, vec!["nixpkgs"]);
    assert_eq!(translated, vec!["nixpkgs"]);

    let unknown = vec!["bogus".to_owned()];
    let refused = requested_names(&unknown, &declared, None);
    assert!(
        matches!(&refused, Err(Failure::Usage(error)) if error.message.contains("bogus")),
        "expected a usage refusal naming the input"
    );
}
