//! What a command comes to when a key engine answers all its questions.
//!
//! An engine is any function from questions to answers. What is said of a
//! command here holds for every engine with the properties that are asked of it,
//! such as that it decrypts what it encrypted.
use crate::engine::{settled, EngineReply, HaltModel, Operation, RequestModel, Run, StopModel};
use vstd::prelude::*;

verus! {

/// What a command comes to once an engine has answered its questions, up to so
/// many of them, after the answers that are there already.
pub open spec fn consulted<T>(
    command: spec_fn(Seq<EngineReply>) -> Run<T>,
    engine: spec_fn(RequestModel) -> EngineReply,
    replies: Seq<EngineReply>,
    questions: nat,
) -> core::result::Result<T, StopModel>
    decreases questions,
{
    match command(replies) {
        Err(HaltModel::Ask(question)) => if questions == 0 {
            Err(StopModel::Ask(question))
        } else {
            consulted(command, engine, replies.push(engine(question)), (questions - 1) as nat)
        },
        outcome => settled(outcome),
    }
}

/// The bytes that an engine answers, where it answers with bytes.
pub open spec fn told(
    engine: spec_fn(RequestModel) -> EngineReply,
    question: RequestModel,
) -> Option<Seq<u8>> {
    match engine(question) {
        EngineReply::Bytes(bytes) => Some(bytes@),
        _ => None,
    }
}

/// Whether an engine undoes one operation by another: under the same key and
/// parameter, it gives back the data.
pub open spec fn undoes(
    engine: spec_fn(RequestModel) -> EngineReply,
    forward: Operation,
    backward: Operation,
) -> bool {
    forall|key: Seq<u8>, parameter: Seq<u8>, data: Seq<u8>|
        (#[trigger] told(engine, RequestModel::compute(forward, key, parameter, data)))
            matches Some(result) ==> told(
            engine,
            RequestModel::compute(backward, key, parameter, result),
        ) == Some(data)
}

/// Whether an operation of an engine makes so many bytes more than it was given.
pub open spec fn adds(
    engine: spec_fn(RequestModel) -> EngineReply,
    operation: Operation,
    length: nat,
) -> bool {
    forall|key: Seq<u8>, parameter: Seq<u8>, data: Seq<u8>|
        (#[trigger] told(engine, RequestModel::compute(operation, key, parameter, data)))
            matches Some(result) ==> result.len() == data.len() + length
}

/// Whether an engine draws as many random bytes as it is asked for.
pub open spec fn draws(engine: spec_fn(RequestModel) -> EngineReply) -> bool {
    forall|length: usize|
        (#[trigger] told(engine, RequestModel::Random(length))) matches Some(bytes) && bytes.len()
            == length
}

/// A command without a question comes to the same whatever the engine is.
pub proof fn answered_commands_need_no_engine<T>(
    command: spec_fn(Seq<EngineReply>) -> Run<T>,
    engine: spec_fn(RequestModel) -> EngineReply,
    replies: Seq<EngineReply>,
    questions: nat,
)
    requires
        !(command(replies) matches Err(HaltModel::Ask(_))),
    ensures
        consulted(command, engine, replies, questions) == settled(command(replies)),
{
}

/// A question is answered by the engine, and the command goes on.
pub proof fn questions_are_put_to_the_engine<T>(
    command: spec_fn(Seq<EngineReply>) -> Run<T>,
    engine: spec_fn(RequestModel) -> EngineReply,
    replies: Seq<EngineReply>,
    questions: nat,
    question: RequestModel,
)
    requires
        questions > 0,
        command(replies) == Err::<(T, nat), HaltModel>(HaltModel::Ask(question)),
    ensures
        consulted(command, engine, replies, questions) == consulted(
            command,
            engine,
            replies.push(engine(question)),
            (questions - 1) as nat,
        ),
{
}

} // verus!
