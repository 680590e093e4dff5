//! Tasks, and what decoding makes of them.
use crate::foreign::{thrown, thrown_error, try_map};
use crate::{CompactType, SurrealContext};
use apalis_core::task::Parts;
use core::fmt::Display;
use surrealdb::Error;
use ulid::Ulid;
use vstd::prelude::*;
use vstd::string::to_string_from_display_ensures;

verus! {

/// A task of the queue: its arguments, and its other parts (id, attempts,
/// context, status, time).
pub struct SurrealTask<Args> {
    pub args: Args,
    pub parts: Parts<SurrealContext, Ulid>,
}

/// What a poll of the queue gives: a task, no task for now, or an error.
pub type Polled<Args> = Result<Option<SurrealTask<Args>>, Error>;

/// Relates a fetched item to the item that is handed on when the arguments go
/// through `decode`.
///
/// An error and an idle poll pass as they are. A task whose arguments decode
/// keeps all its other parts. A task whose arguments do not decode becomes an
/// error that carries the text of the decoder's error.
pub open spec fn decodes_to<Args, E: Display, F: Fn(&CompactType) -> Result<Args, E>>(
    decode: F,
    item: Polled<CompactType>,
    out: Polled<Args>,
) -> bool {
    match item {
        Err(error) => out == Polled::<Args>::Err(error),
        Ok(None) => out == Polled::<Args>::Ok(None),
        Ok(Some(task)) => match out {
            Ok(Some(decoded)) => {
                &&& decode.ensures((&task.args,), Ok(decoded.args))
                &&& decoded.parts == task.parts
            },
            Ok(None) => false,
            Err(error) => exists|cause: E, text: String|
                {
                    &&& #[trigger] decode.ensures((&task.args,), Err(cause))
                    &&& #[trigger] to_string_from_display_ensures::<E>(&cause, text)
                    &&& error == thrown_error(text@)
                },
        },
    }
}

/// Decodes the arguments of a fetched item.
pub fn decode_item<Args, E: Display, F: Fn(&CompactType) -> Result<Args, E>>(
    item: Polled<CompactType>,
    decode: &F,
) -> (out: Polled<Args>)
    requires
        item matches Ok(Some(task)) ==> decode.requires((&task.args,)),
    ensures
        decodes_to(*decode, item, out),
{
    match item {
        Ok(Some(task)) => {
            let decode_args = |args: CompactType| -> (decoded: Result<Args, E>)
                requires
                    decode.requires((&args,)),
                ensures
                    decode.ensures((&args,), decoded),
                { decode(&args) };
            match try_map(task, decode_args) {
                Ok(decoded) => Ok(Some(decoded)),
                Err(cause) => Err(thrown(cause.to_string())),
            }
        },
        Ok(None) => Ok(None),
        Err(error) => Err(error),
    }
}

/// A task whose arguments decode to one value is handed on with that value and
/// with all its other parts as they were.
pub proof fn law_decodable_task_keeps_its_parts<
    Args,
    E: Display,
    F: Fn(&CompactType) -> Result<Args, E>,
>(decode: F, task: SurrealTask<CompactType>, args: Args, out: Polled<Args>)
    requires
        forall|decoded: Result<Args, E>| #[trigger]
            decode.ensures((&task.args,), decoded) ==> decoded == Ok::<Args, E>(args),
        decodes_to(decode, Ok(Some(task)), out),
    ensures
        out == Polled::<Args>::Ok(Some(SurrealTask { args, parts: task.parts })),
{
}

/// A task whose arguments do not decode is handed on as a thrown error with the
/// text of the decoder's error: it is not dropped, nor taken for an idle poll.
pub proof fn law_undecodable_task_is_an_error<
    Args,
    E: Display,
    F: Fn(&CompactType) -> Result<Args, E>,
>(decode: F, task: SurrealTask<CompactType>, out: Polled<Args>)
    requires
        forall|decoded: Result<Args, E>| #[trigger]
            decode.ensures((&task.args,), decoded) ==> decoded is Err,
        decodes_to(decode, Ok(Some(task)), out),
    ensures
        exists|cause: E, text: String|
            {
                &&& #[trigger] decode.ensures((&task.args,), Err(cause))
                &&& #[trigger] to_string_from_display_ensures::<E>(&cause, text)
                &&& out == Polled::<Args>::Err(thrown_error(text@))
            },
{
}

/// Whatever the decoder, an error of the fetch and an idle poll are handed on as
/// they are.
pub proof fn law_errors_and_idle_polls_pass_decoding<
    Args,
    E: Display,
    F: Fn(&CompactType) -> Result<Args, E>,
>(decode: F, error: Error, out: Polled<Args>)
    ensures
        decodes_to(decode, Err(error), out) <==> out == Polled::<Args>::Err(error),
        decodes_to(decode, Ok(None), out) <==> out == Polled::<Args>::Ok(None),
{
}

/// Of any fetched item and any decoder: an error and an idle poll are handed on as
/// they are, and nothing else is handed on as idle. A task goes with arguments
/// that the decoder gave for its bytes and with all its other parts, or as a
/// thrown error with the text of an error that the decoder gave for its bytes.
pub proof fn law_decoding_loses_nothing<Args, E: Display, F: Fn(&CompactType) -> Result<Args, E>>(
    decode: F,
    item: Polled<CompactType>,
    out: Polled<Args>,
)
    requires
        call_ensures(decode_item::<Args, E, F>, (item, &decode), out),
    ensures
        item matches Err(error) ==> out == Polled::<Args>::Err(error),
        item matches Ok(None) <==> out matches Ok(None),
        item matches Ok(Some(task)) ==> match out {
            Ok(Some(decoded)) => {
                &&& decode.ensures((&task.args,), Ok(decoded.args))
                &&& decoded.parts == task.parts
            },
            Ok(None) => false,
            Err(error) => exists|cause: E, text: String|
                {
                    &&& #[trigger] decode.ensures((&task.args,), Err(cause))
                    &&& #[trigger] to_string_from_display_ensures::<E>(&cause, text)
                    &&& error == thrown_error(text@)
                },
        },
{
}

} // verus!
