//! What the bootstrap asks of its surroundings, and what they answer.
//!
//! Every phase of the bootstrap is a function from the point it has reached and the last answer
//! to a turn: the next action with the point that waits for its answer, the end of the phase, or
//! a failure. The types here are written once, over the text type: `String` where they are
//! executed, `Seq<char>` where contracts speak of them.

use crate::failure::{Failure, FailureModel};
use crate::text::string_texts;
use vstd::prelude::*;

verus! {

/// A program with its arguments, and with what is added to its environment.
#[derive(Debug, PartialEq, Eq)]
pub struct Call {
    pub program: String,
    pub args: Vec<String>,
    pub env: Vec<(String, String)>,
}

/// What a call consists of.
#[verifier::ext_equal]
pub struct CallModel {
    pub program: Seq<char>,
    pub args: Seq<Seq<char>>,
    pub env: Seq<(Seq<char>, Seq<char>)>,
}

impl View for Call {
    type V = CallModel;

    open spec fn view(&self) -> CallModel {
        CallModel {
            program: self.program@,
            args: string_texts(self.args@),
            env: self.env@.map_values(|pair: (String, String)| (pair.0@, pair.1@)),
        }
    }
}

/// A line for the terminal.
#[derive(Debug, PartialEq, Eq)]
#[verifier::ext_equal]
pub enum Note<S> {
    /// For the standard output.
    Progress(S),
    /// For the standard error output.
    Problem(S),
}

/// How many seconds GitHub and the local registry may take to answer.
pub const HTTP_LIMIT: u64 = 10;

/// Something that only the surroundings can do.
#[derive(Debug, PartialEq, Eq)]
#[verifier::ext_equal]
pub enum Action<S, C> {
    /// Look a tool up in `PATH`. Answered by `Reply::Found`.
    FindTool(S),
    /// Run a program on the terminal. Answered by `Reply::Ended`.
    Run(C),
    /// Run a program with no input and no visible output. Answered by `Reply::Ended`.
    RunQuiet(C),
    /// Run a program and keep its standard output. Answered by `Reply::Ended`.
    Capture(C),
    /// As `Capture`, with the standard error output dropped. Answered by `Reply::Ended`.
    CaptureLossy(C),
    /// Run a program on the terminal, with this text for its input. Answered by `Reply::Ended`.
    RunWithStdin(C, S),
    /// As `Capture`, with this text for its input. Answered by `Reply::Ended`.
    CaptureWithStdin(C, S),
    /// Start a program and let it run on. Answered by `Reply::Finished`.
    Follow(C),
    /// Stop the program that runs on, where there is one, and remove this temporary file. Answered
    /// by `Reply::Done`.
    Release(S),
    /// Set a variable of the environment that all later programs see. Answered by `Reply::Done`.
    SetVar(S, S),
    /// Request a page, and wait no more than this many seconds for it. Answered by
    /// `Reply::Status`.
    Get { url: S, limit: u64 },
    /// As `Get`, of an interface that wants to know who asks. Answered by `Reply::Status`.
    GetAuthorized { url: S, accept: S, authorization: S, limit: u64 },
    /// Wait for this many seconds. Answered by `Reply::Done`.
    Sleep(u64),
    /// Tell whether this path names a file. Answered by `Reply::Found`.
    CheckFile(S),
    /// Read a file. Answered by `Reply::Text`, with its contents.
    ReadFile(S),
    /// Make an empty temporary file. Answered by `Reply::Text`, with its path.
    CreateTemp,
    /// Write a text into a temporary file. Answered by `Reply::Finished`.
    WriteTemp { path: S, contents: S },
}

/// How a program ended.
#[derive(Debug, PartialEq, Eq)]
#[verifier::ext_equal]
pub enum Ending<S, B> {
    /// It did not start, for this reason.
    NotStarted(S),
    /// It started without an input to write to.
    NoInput,
    /// Writing its input or waiting for it failed, for this reason.
    Broken(S),
    /// It ran to its end.
    Exited { success: bool, status: S, output: B },
}

/// The answer to an action.
#[derive(Debug, PartialEq, Eq)]
#[verifier::ext_equal]
pub enum Reply<S, B> {
    /// The answer to nothing: a phase begins.
    Begin,
    Done,
    Found(bool),
    Ended(Ending<S, B>),
    /// The status code of the page, where there was an answer at all.
    Status(Option<u16>),
    Text(Result<S, S>),
    Finished(Result<(), S>),
}

/// What a phase does next.
#[derive(Debug, PartialEq, Eq)]
pub enum Turn<P, T> {
    /// Show the notes, do the action, and come back to the point with the answer.
    Ask(P, Vec<Note<String>>, Action<String, Call>),
    /// Show the notes; the phase is over, with this result.
    Done(Vec<Note<String>>, T),
    /// Show the notes; the bootstrap has failed.
    Fail(Vec<Note<String>>, Failure<String, Call>),
}

/// What a turn consists of.
#[verifier::ext_equal]
pub enum TurnModel<P, T> {
    Ask(P, Seq<Note<Seq<char>>>, ActionModel),
    Done(Seq<Note<Seq<char>>>, T),
    Fail(Seq<Note<Seq<char>>>, FailureModel),
}

pub type NoteModel = Note<Seq<char>>;

pub type ActionModel = Action<Seq<char>, CallModel>;

pub type EndingModel = Ending<Seq<char>, Seq<u8>>;

pub type ReplyModel = Reply<Seq<char>, Seq<u8>>;

impl View for Note<String> {
    type V = NoteModel;

    open spec fn view(&self) -> NoteModel {
        match self {
            Note::Progress(line) => Note::Progress(line@),
            Note::Problem(line) => Note::Problem(line@),
        }
    }
}

impl View for Action<String, Call> {
    type V = ActionModel;

    open spec fn view(&self) -> ActionModel {
        match self {
            Action::FindTool(name) => Action::FindTool(name@),
            Action::Run(call) => Action::Run(call@),
            Action::RunQuiet(call) => Action::RunQuiet(call@),
            Action::Capture(call) => Action::Capture(call@),
            Action::CaptureLossy(call) => Action::CaptureLossy(call@),
            Action::RunWithStdin(call, input) => Action::RunWithStdin(call@, input@),
            Action::CaptureWithStdin(call, input) => Action::CaptureWithStdin(call@, input@),
            Action::Follow(call) => Action::Follow(call@),
            Action::Release(path) => Action::Release(path@),
            Action::SetVar(name, value) => Action::SetVar(name@, value@),
            Action::Get { url, limit } => Action::Get { url: url@, limit: *limit },
            Action::GetAuthorized { url, accept, authorization, limit } => Action::GetAuthorized {
                url: url@,
                accept: accept@,
                authorization: authorization@,
                limit: *limit,
            },
            Action::Sleep(seconds) => Action::Sleep(*seconds),
            Action::CheckFile(path) => Action::CheckFile(path@),
            Action::ReadFile(path) => Action::ReadFile(path@),
            Action::CreateTemp => Action::CreateTemp,
            Action::WriteTemp { path, contents } => Action::WriteTemp {
                path: path@,
                contents: contents@,
            },
        }
    }
}

impl View for Ending<String, Vec<u8>> {
    type V = EndingModel;

    open spec fn view(&self) -> EndingModel {
        match self {
            Ending::NotStarted(cause) => Ending::NotStarted(cause@),
            Ending::NoInput => Ending::NoInput,
            Ending::Broken(cause) => Ending::Broken(cause@),
            Ending::Exited { success, status, output } => Ending::Exited {
                success: *success,
                status: status@,
                output: output@,
            },
        }
    }
}

impl View for Reply<String, Vec<u8>> {
    type V = ReplyModel;

    open spec fn view(&self) -> ReplyModel {
        match self {
            Reply::Begin => Reply::Begin,
            Reply::Done => Reply::Done,
            Reply::Found(found) => Reply::Found(*found),
            Reply::Ended(ending) => Reply::Ended(ending@),
            Reply::Status(code) => Reply::Status(*code),
            Reply::Text(Ok(text)) => Reply::Text(Ok(text@)),
            Reply::Text(Err(cause)) => Reply::Text(Err(cause@)),
            Reply::Finished(Ok(())) => Reply::Finished(Ok(())),
            Reply::Finished(Err(cause)) => Reply::Finished(Err(cause@)),
        }
    }
}

/// The texts of `notes`.
pub open spec fn note_models(notes: Seq<Note<String>>) -> Seq<NoteModel> {
    notes.map_values(|note: Note<String>| note@)
}

impl<P: View, T: View> View for Turn<P, T> {
    type V = TurnModel<P::V, T::V>;

    open spec fn view(&self) -> TurnModel<P::V, T::V> {
        match self {
            Turn::Ask(point, notes, action) => TurnModel::Ask(
                point@,
                note_models(notes@),
                action@,
            ),
            Turn::Done(notes, result) => TurnModel::Done(note_models(notes@), result@),
            Turn::Fail(notes, failure) => TurnModel::Fail(note_models(notes@), failure@),
        }
    }
}

/// `turn`, with `notes` shown before its own.
pub open spec fn preceded<P, T>(notes: Seq<NoteModel>, turn: TurnModel<P, T>) -> TurnModel<P, T> {
    match turn {
        TurnModel::Ask(point, more, action) => TurnModel::Ask(point, notes + more, action),
        TurnModel::Done(more, result) => TurnModel::Done(notes + more, result),
        TurnModel::Fail(more, failure) => TurnModel::Fail(notes + more, failure),
    }
}

/// Puts `more` behind `notes`.
fn joined_notes(notes: Vec<Note<String>>, more: Vec<Note<String>>) -> (r: Vec<Note<String>>)
    ensures
        note_models(r@) == note_models(notes@) + note_models(more@),
{
    let mut notes = notes;
    let mut more = more;
    notes.append(&mut more);
    notes
}

/// Shows `notes` before those of `turn`.
pub fn precede<P: View, T: View>(notes: Vec<Note<String>>, turn: Turn<P, T>) -> (r: Turn<P, T>)
    ensures
        r@ == preceded(note_models(notes@), turn@),
{
    match turn {
        Turn::Ask(point, more, action) => Turn::Ask(point, joined_notes(notes, more), action),
        Turn::Done(more, result) => Turn::Done(joined_notes(notes, more), result),
        Turn::Fail(more, failure) => Turn::Fail(joined_notes(notes, more), failure),
    }
}

/// Lines that are put before a turn are shown first, all of them, and change nothing else of it.
pub proof fn lines_come_first<P, T>(
    notes: Seq<NoteModel>,
    more: Seq<NoteModel>,
    point: P,
    action: ActionModel,
    result: T,
    failure: FailureModel,
)
    ensures
        preceded(notes, TurnModel::<P, T>::Ask(point, more, action)) == TurnModel::<P, T>::Ask(
            point,
            notes + more,
            action,
        ),
        preceded(notes, TurnModel::<P, T>::Done(more, result)) == TurnModel::<P, T>::Done(
            notes + more,
            result,
        ),
        preceded(notes, TurnModel::<P, T>::Fail(more, failure)) == TurnModel::<P, T>::Fail(
            notes + more,
            failure,
        ),
{
}

/// An answer is modelled as it is: nothing that it says is left out or changed.
pub proof fn replies_are_modelled_as_they_are(
    found: bool,
    code: Option<u16>,
    text: String,
    success: bool,
    output: Vec<u8>,
)
    ensures
        Reply::<String, Vec<u8>>::Found(found)@ == ReplyModel::Found(found),
        Reply::<String, Vec<u8>>::Status(code)@ == ReplyModel::Status(code),
        Reply::<String, Vec<u8>>::Text(Ok(text))@ == ReplyModel::Text(Ok(text@)),
        Reply::<String, Vec<u8>>::Text(Err(text))@ == ReplyModel::Text(Err(text@)),
        Reply::<String, Vec<u8>>::Finished(Ok(()))@ == ReplyModel::Finished(Ok(())),
        Reply::<String, Vec<u8>>::Finished(Err(text))@ == ReplyModel::Finished(Err(text@)),
        Reply::<String, Vec<u8>>::Begin@ == ReplyModel::Begin,
        Reply::<String, Vec<u8>>::Done@ == ReplyModel::Done,
        Reply::<String, Vec<u8>>::Ended(Ending::NotStarted(text))@ == ReplyModel::Ended(
            Ending::NotStarted(text@),
        ),
        Reply::<String, Vec<u8>>::Ended(Ending::NoInput)@ == ReplyModel::Ended(Ending::NoInput),
        Reply::<String, Vec<u8>>::Ended(Ending::Broken(text))@ == ReplyModel::Ended(
            Ending::Broken(text@),
        ),
        Reply::<String, Vec<u8>>::Ended(Ending::Exited { success, status: text, output })@
            == ReplyModel::Ended(Ending::Exited { success, status: text@, output: output@ }),
{
}

/// A call is modelled as it is: its program, each of its arguments, and each variable that is added
/// to its environment.
pub proof fn calls_are_modelled_as_they_are(call: Call, i: int)
    ensures
        call@.program == call.program@,
        call@.args.len() == call.args@.len(),
        0 <= i < call.args@.len() ==> call@.args[i] == call.args@[i]@,
        call@.env.len() == call.env@.len(),
        0 <= i < call.env@.len() ==> call@.env[i] == (call.env@[i].0@, call.env@[i].1@),
{
}

/// An action is modelled as it is, with all that it holds.
pub proof fn actions_are_modelled_as_they_are(call: Call, a: String, b: String, c: String, n: u64)
    ensures
        Action::<String, Call>::FindTool(a)@ == ActionModel::FindTool(a@),
        Action::<String, Call>::Run(call)@ == ActionModel::Run(call@),
        Action::<String, Call>::RunQuiet(call)@ == ActionModel::RunQuiet(call@),
        Action::<String, Call>::Capture(call)@ == ActionModel::Capture(call@),
        Action::<String, Call>::CaptureLossy(call)@ == ActionModel::CaptureLossy(call@),
        Action::<String, Call>::RunWithStdin(call, a)@ == ActionModel::RunWithStdin(call@, a@),
        Action::<String, Call>::CaptureWithStdin(call, a)@ == ActionModel::CaptureWithStdin(
            call@,
            a@,
        ),
        Action::<String, Call>::Follow(call)@ == ActionModel::Follow(call@),
        Action::<String, Call>::Release(a)@ == ActionModel::Release(a@),
        Action::<String, Call>::SetVar(a, b)@ == ActionModel::SetVar(a@, b@),
        (Action::<String, Call>::Get { url: a, limit: n })@ == (ActionModel::Get {
            url: a@,
            limit: n,
        }),
        (Action::<String, Call>::GetAuthorized { url: a, accept: b, authorization: c, limit: n })@
            == (ActionModel::GetAuthorized {
            url: a@,
            accept: b@,
            authorization: c@,
            limit: n,
        }),
        Action::<String, Call>::Sleep(n)@ == ActionModel::Sleep(n),
        Action::<String, Call>::CheckFile(a)@ == ActionModel::CheckFile(a@),
        Action::<String, Call>::ReadFile(a)@ == ActionModel::ReadFile(a@),
        Action::<String, Call>::CreateTemp@ == ActionModel::CreateTemp,
        (Action::<String, Call>::WriteTemp { path: a, contents: b })@ == (ActionModel::WriteTemp {
            path: a@,
            contents: b@,
        }),
        Note::<String>::Progress(a)@ == NoteModel::Progress(a@),
        Note::<String>::Problem(a)@ == NoteModel::Problem(a@),
{
}

/// What follows is modelled as it is, note by note.
pub proof fn turns_are_modelled_as_they_are<P: View, T: View>(
    point: P,
    notes: Vec<Note<String>>,
    action: Action<String, Call>,
    result: T,
    failure: Failure<String, Call>,
    i: int,
)
    ensures
        Turn::<P, T>::Ask(point, notes, action)@ == TurnModel::<P::V, T::V>::Ask(
            point@,
            note_models(notes@),
            action@,
        ),
        Turn::<P, T>::Done(notes, result)@ == TurnModel::<P::V, T::V>::Done(
            note_models(notes@),
            result@,
        ),
        Turn::<P, T>::Fail(notes, failure)@ == TurnModel::<P::V, T::V>::Fail(
            note_models(notes@),
            failure@,
        ),
        note_models(notes@).len() == notes@.len(),
        0 <= i < notes@.len() ==> note_models(notes@)[i] == notes@[i]@,
{
}

} // verus!
