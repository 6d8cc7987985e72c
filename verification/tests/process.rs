use knr_bootstrap::failure::Failure;
use knr_bootstrap::process::{
    call, capture, capture_lossy, check_written, no_notes, problem_note, progress_notes, run,
    run_quiet,
};
use knr_bootstrap::protocol::{precede, Call, Ending, Note, Reply, Turn};

type Answer = Reply<String, Vec<u8>>;

fn exited(success: bool, output: &[u8]) -> Answer {
    Reply::Ended(Ending::Exited {
        success,
        status: "exit status: 7".to_string(),
        output: output.to_vec(),
    })
}

fn sample() -> Call {
    call("kind", &["get", "clusters"])
}

#[test]
fn calls_hold_program_and_arguments() {
    let c = sample();
    assert_eq!(c.program, "kind");
    assert_eq!(c.args, vec!["get", "clusters"]);
    assert!(c.env.is_empty());
}

#[test]
fn required_calls_fail_with_their_own_failure() {
    assert_eq!(run(sample(), &exited(true, b"")), Ok(()));
    assert_eq!(
        run(sample(), &exited(false, b"")),
        Err(Failure::CommandFailed { call: sample(), status: "exit status: 7".to_string() })
    );
    assert_eq!(
        run(sample(), &Reply::Ended(Ending::NotStarted("why".to_string()))),
        Err(Failure::NotStarted { program: "kind".to_string(), cause: "why".to_string() })
    );
    assert_eq!(run(sample(), &Reply::Ended(Ending::NoInput)), Err(Failure::NoInput));
    assert_eq!(
        run(sample(), &Reply::Ended(Ending::Broken("pipe".to_string()))),
        Err(Failure::Broken("pipe".to_string()))
    );
    assert_eq!(run(sample(), &Reply::Done), Err(Failure::UnexpectedReply));
}

#[test]
fn output_is_captured_as_text() {
    assert_eq!(capture(sample(), &exited(true, "\u{e4}\n".as_bytes())), Ok("\u{e4}\n".to_string()));
    assert_eq!(capture(sample(), &exited(true, b"a\xffb")), Ok("a\u{fffd}b".to_string()));
    assert!(capture(sample(), &exited(false, b"a")).is_err());
    assert_eq!(capture_lossy(&exited(false, b"mgmt\n")), "mgmt\n");
    assert_eq!(capture_lossy(&exited(true, b"\xf0\x9f")), "\u{fffd}");
    assert_eq!(capture_lossy(&Reply::Ended(Ending::NotStarted("why".to_string()))), "");
    assert_eq!(capture_lossy(&Reply::Found(true)), "");
}

#[test]
fn quiet_calls_tell_only_of_success() {
    assert!(run_quiet(&exited(true, b"")));
    assert!(!run_quiet(&exited(false, b"")));
    assert!(!run_quiet(&Reply::Ended(Ending::NotStarted("why".to_string()))));
    assert!(!run_quiet(&Reply::Found(true)));
}

#[test]
fn writing_succeeds_or_fails() {
    assert_eq!(check_written(&Reply::Finished(Ok(()))), Ok(()));
    assert_eq!(
        check_written(&Reply::Finished(Err("full".to_string()))),
        Err(Failure::Broken("full".to_string()))
    );
    assert_eq!(check_written(&Reply::Done), Err(Failure::UnexpectedReply));
}

#[test]
fn notes_keep_their_order() {
    let first = progress_notes(&["a", "b"]);
    let turn: Turn<(), ()> = Turn::Done(problem_note("c".to_string()), ());
    assert_eq!(
        precede(first, turn),
        Turn::Done(
            vec![
                Note::Progress("a".to_string()),
                Note::Progress("b".to_string()),
                Note::Problem("c".to_string()),
            ],
            ()
        )
    );
    let turn: Turn<u8, ()> = Turn::Fail(no_notes(), Failure::NoEngine);
    assert_eq!(precede(no_notes(), turn), Turn::Fail(vec![], Failure::NoEngine));
}
