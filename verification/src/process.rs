//! Running programs: how calls are put together, and what comes of how they end.

use crate::failure::{Failure, FailureModel};
use crate::outside::{decode_lossy, decoded, encoded_text_is_read_back};
use crate::protocol::{
    note_models, Call, CallModel, Ending, Note, NoteModel, Reply, ReplyModel, TurnModel,
};
use crate::text::{strings, texts};
use vstd::prelude::*;
use vstd::utf8::encode_utf8;

verus! {

/// A call of `program` with `args`, in an unchanged environment.
pub open spec fn plain_call(program: Seq<char>, args: Seq<Seq<char>>) -> CallModel {
    CallModel { program, args, env: seq![] }
}

/// Makes a call of `program` with `args`, in an unchanged environment.
pub fn call(program: &str, args: &[&str]) -> (r: Call)
    ensures
        r@ == plain_call(program@, texts(args@)),
{
    Call { program: program.to_string(), args: strings(args), env: Vec::new() }
}

/// What comes of a call that has to succeed: its standard output, or the failure.
pub open spec fn outcome(call: CallModel, reply: ReplyModel) -> Result<Seq<u8>, FailureModel> {
    match reply {
        Reply::Ended(Ending::NotStarted(cause)) => Err(
            Failure::NotStarted { program: call.program, cause },
        ),
        Reply::Ended(Ending::NoInput) => Err(Failure::NoInput),
        Reply::Ended(Ending::Broken(cause)) => Err(Failure::Broken(cause)),
        Reply::Ended(Ending::Exited { success, status, output }) => if success {
            Ok(output)
        } else {
            Err(Failure::CommandFailed { call, status })
        },
        _ => Err(Failure::UnexpectedReply),
    }
}

/// The failure of `call`, where `reply` does not report success.
fn failed(call: Call, reply: &Reply<String, Vec<u8>>) -> (r: Option<Failure<String, Call>>)
    ensures
        match r {
            Some(failure) => outcome(call@, reply@) == Err::<Seq<u8>, FailureModel>(failure@),
            None => outcome(call@, reply@) is Ok,
        },
{
    match reply {
        Reply::Ended(Ending::NotStarted(cause)) => Some(
            Failure::NotStarted { program: call.program, cause: cause.clone() },
        ),
        Reply::Ended(Ending::NoInput) => Some(Failure::NoInput),
        Reply::Ended(Ending::Broken(cause)) => Some(Failure::Broken(cause.clone())),
        Reply::Ended(Ending::Exited { success, status, .. }) => if *success {
            None
        } else {
            Some(Failure::CommandFailed { call, status: status.clone() })
        },
        _ => Some(Failure::UnexpectedReply),
    }
}

/// A call that has to succeed: its failure is the failure of the bootstrap.
pub fn run(call: Call, reply: &Reply<String, Vec<u8>>) -> (r: Result<(), Failure<String, Call>>)
    ensures
        match r {
            Ok(()) => outcome(call@, reply@) is Ok,
            Err(failure) => outcome(call@, reply@) == Err::<Seq<u8>, FailureModel>(failure@),
        },
{
    match failed(call, reply) {
        Some(failure) => Err(failure),
        None => Ok(()),
    }
}

/// A call that has to succeed and whose standard output matters.
pub fn capture(call: Call, reply: &Reply<String, Vec<u8>>) -> (r: Result<
    String,
    Failure<String, Call>,
>)
    ensures
        match r {
            Ok(text) => outcome(call@, reply@) matches Ok(output) && text@ == decoded(output),
            Err(failure) => outcome(call@, reply@) == Err::<Seq<u8>, FailureModel>(failure@),
        },
{
    match failed(call, reply) {
        Some(failure) => Err(failure),
        None => Ok(capture_lossy(reply)),
    }
}

/// Whether a program started and reported success.
pub open spec fn succeeded(reply: ReplyModel) -> bool {
    reply matches Reply::Ended(Ending::Exited { success, .. }) && success
}

/// A call of which only the success matters.
pub fn run_quiet(reply: &Reply<String, Vec<u8>>) -> (r: bool)
    ensures
        r == succeeded(reply@),
{
    match reply {
        Reply::Ended(Ending::Exited { success, .. }) => *success,
        _ => false,
    }
}

/// The standard output of a program, whatever its end; nothing where there is none.
pub open spec fn output_text(reply: ReplyModel) -> Seq<char> {
    match reply {
        Reply::Ended(Ending::Exited { output, .. }) => decoded(output),
        _ => seq![],
    }
}

/// A call of which only the standard output matters.
pub fn capture_lossy(reply: &Reply<String, Vec<u8>>) -> (text: String)
    ensures
        text@ == output_text(reply@),
{
    match reply {
        Reply::Ended(Ending::Exited { output, .. }) => decode_lossy(output),
        _ => String::new(),
    }
}

/// The turn after a call that has to succeed: `next`, or the failure of the call.
pub open spec fn after<P, T>(
    call: CallModel,
    reply: ReplyModel,
    next: TurnModel<P, T>,
) -> TurnModel<P, T> {
    match outcome(call, reply) {
        Ok(_) => next,
        Err(failure) => TurnModel::Fail(seq![], failure),
    }
}

/// Lines for the standard output.
pub open spec fn progress(lines: Seq<Seq<char>>) -> Seq<NoteModel> {
    lines.map_values(|line: Seq<char>| Note::Progress(line))
}

/// Makes lines for the standard output.
pub fn progress_notes(lines: &[&str]) -> (notes: Vec<Note<String>>)
    ensures
        note_models(notes@) == progress(texts(lines@)),
{
    let mut notes: Vec<Note<String>> = Vec::new();
    let mut i: usize = 0;
    while i < lines.len()
        invariant
            i <= lines@.len(),
            notes@.len() == i,
            forall|j: int| 0 <= j < i ==> (#[trigger] notes@[j])@ == Note::Progress(lines@[j]@),
        decreases lines.len() - i,
    {
        notes.push(Note::Progress(lines[i].to_string()));
        i = i + 1;
    }
    notes
}

/// A line for the standard error output.
pub open spec fn problem(line: Seq<char>) -> Seq<NoteModel> {
    seq![Note::Problem(line)]
}

/// Makes a line for the standard error output.
pub fn problem_note(line: String) -> (notes: Vec<Note<String>>)
    ensures
        note_models(notes@) == problem(line@),
{
    let mut notes: Vec<Note<String>> = Vec::new();
    notes.push(Note::Problem(line));
    notes
}

/// No line at all.
pub fn no_notes() -> (notes: Vec<Note<String>>)
    ensures
        note_models(notes@) == Seq::<NoteModel>::empty(),
{
    Vec::new()
}

/// What comes of writing something: nothing, or the failure.
pub open spec fn written(reply: ReplyModel) -> Result<(), FailureModel> {
    match reply {
        Reply::Finished(Ok(())) => Ok(()),
        Reply::Finished(Err(cause)) => Err(Failure::Broken(cause)),
        _ => Err(Failure::UnexpectedReply),
    }
}

/// The failure of writing something, where there is one.
pub fn check_written(reply: &Reply<String, Vec<u8>>) -> (r: Result<(), Failure<String, Call>>)
    ensures
        match r {
            Ok(()) => written(reply@) is Ok,
            Err(failure) => written(reply@) == Err::<(), FailureModel>(failure@),
        },
{
    match reply {
        Reply::Finished(Ok(())) => Ok(()),
        Reply::Finished(Err(cause)) => Err(Failure::Broken(cause.clone())),
        _ => Err(Failure::UnexpectedReply),
    }
}

/// A call that has to succeed gives its whole output where it reports success, and its own failure
/// otherwise: one that names the program and the cause where it did not start, and the call and its
/// status where it reports failure.
pub proof fn endings_decide(
    call: CallModel,
    status: Seq<char>,
    output: Seq<u8>,
    cause: Seq<char>,
    reply: ReplyModel,
)
    ensures
        outcome(call, Reply::Ended(Ending::Exited { success: true, status, output })) == Ok::<
            Seq<u8>,
            FailureModel,
        >(output),
        outcome(call, Reply::Ended(Ending::Exited { success: false, status, output })) == Err::<
            Seq<u8>,
            FailureModel,
        >(Failure::CommandFailed { call, status }),
        outcome(call, Reply::Ended(Ending::NotStarted(cause))) == Err::<Seq<u8>, FailureModel>(
            Failure::NotStarted { program: call.program, cause },
        ),
        outcome(call, Reply::Ended(Ending::NoInput)) == Err::<Seq<u8>, FailureModel>(
            Failure::NoInput,
        ),
        outcome(call, Reply::Ended(Ending::Broken(cause))) == Err::<Seq<u8>, FailureModel>(
            Failure::Broken(cause),
        ),
        succeeded(reply) <==> outcome(call, reply) is Ok,
        succeeded(reply) ==> reply is Ended,
        outcome(call, reply) == Err::<Seq<u8>, FailureModel>(Failure::UnexpectedReply)
            <==> !(reply is Ended),
{
}

/// Where only the output matters, it is all of what was printed, whatever the program reported; and
/// nothing where it printed nothing because it did not run.
pub proof fn output_is_taken_whole(
    success: bool,
    status: Seq<char>,
    text: Seq<char>,
    output: Seq<u8>,
    reply: ReplyModel,
)
    ensures
        output_text(
            Reply::Ended(Ending::Exited { success, status, output: encode_utf8(text) }),
        ) == text,
        output_text(Reply::Ended(Ending::Exited { success, status, output })) == decoded(output),
        !(reply matches Reply::Ended(Ending::Exited { .. })) ==> output_text(reply).len() == 0,
{
    encoded_text_is_read_back(text);
}

/// Writing succeeds where that was answered, and fails with the cause that was answered.
pub proof fn writing_is_answered(cause: Seq<char>)
    ensures
        written(Reply::Finished(Ok(()))) == Ok::<(), FailureModel>(()),
        written(Reply::Finished(Err(cause))) == Err::<(), FailureModel>(Failure::Broken(cause)),
{
}

/// Every line is shown as it is, and in its place; a call holds its arguments as they are.
pub proof fn lines_and_arguments_are_kept(parts: Seq<Seq<char>>, i: int, program: Seq<char>)
    ensures
        progress(parts).len() == parts.len(),
        0 <= i < parts.len() ==> progress(parts)[i] == Note::Progress(parts[i]),
        problem(program) == seq![Note::Problem(program)],
        plain_call(program, parts).program == program,
        plain_call(program, parts).args == parts,
        plain_call(program, parts).env.len() == 0,
{
}

} // verus!
