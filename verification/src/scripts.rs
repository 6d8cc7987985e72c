//! What is seen of each phase from outside: the lines it shows and the actions it asks for, one
//! after the other, written out for the ways in which a phase can go.

use crate::protocol::{ActionModel, CallModel, Note, NoteModel, ReplyModel, TurnModel};
use vstd::prelude::*;

pub mod checks;
pub mod cluster;
pub mod flux;
pub mod registry;
pub mod watch;
pub mod whole;

verus! {

/// Something that is seen of a phase.
#[verifier::ext_equal]
pub enum Event {
    /// A line for the standard output.
    Told(Seq<char>),
    /// A line for the standard error output.
    Warned(Seq<char>),
    /// An action.
    Asked(ActionModel),
}

/// What is seen of these lines.
pub open spec fn told(notes: Seq<NoteModel>) -> Seq<Event> {
    notes.map_values(
        |note: NoteModel|
            match note {
                Note::Progress(line) => Event::Told(line),
                Note::Problem(line) => Event::Warned(line),
            },
    )
}

/// What is seen of a phase from `turn` on, where its actions are answered like this, one after the
/// other.
pub open spec fn events<P, T>(
    step: spec_fn(P, ReplyModel) -> TurnModel<P, T>,
    turn: TurnModel<P, T>,
    answers: Seq<ReplyModel>,
) -> Seq<Event>
    decreases answers.len(),
{
    match turn {
        TurnModel::Ask(at, notes, action) => told(notes) + seq![Event::Asked(action)] + (
        if answers.len() == 0 {
            seq![]
        } else {
            events(step, step(at, answers[0]), answers.skip(1))
        }),
        TurnModel::Done(notes, _) => told(notes),
        TurnModel::Fail(notes, _) => told(notes),
    }
}

/// Where a phase stands behind these answers.
pub open spec fn reached<P, T>(
    step: spec_fn(P, ReplyModel) -> TurnModel<P, T>,
    turn: TurnModel<P, T>,
    answers: Seq<ReplyModel>,
) -> TurnModel<P, T>
    decreases answers.len(),
{
    match turn {
        TurnModel::Ask(at, _, _) => if answers.len() == 0 {
            turn
        } else {
            reached(step, step(at, answers[0]), answers.skip(1))
        },
        _ => turn,
    }
}

/// A call with nothing added to its environment.
pub open spec fn command(program: Seq<char>, args: Seq<Seq<char>>) -> CallModel {
    CallModel { program, args, env: seq![] }
}

} // verus!
