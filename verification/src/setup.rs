//! How the database is prepared: the schema script is read, the session is
//! selected, and the script is run.
use crate::foreign::{check_response, first_error, statement_errors, thrown, thrown_error};
use surrealdb::{Error, Response};
use vstd::prelude::*;

verus! {

/// The file that holds the schema script.
pub const SCRIPT_PATH: &'static str = "migrations/init_setup.surql";

/// The namespace that queues live in.
pub const NAMESPACE: &'static str = "apalis";

/// The database, within the namespace, that queues live in.
pub const DATABASE: &'static str = "apalis";

/// A namespace and a database in it, to be selected on a connection.
#[derive(Debug, Clone, Copy)]
pub struct Session {
    pub namespace: &'static str,
    pub database: &'static str,
}

/// The session of every queue.
pub open spec fn queue_session() -> Session {
    Session { namespace: NAMESPACE, database: DATABASE }
}

impl Session {
    /// The session of every queue.
    pub fn of_queues() -> (session: Self)
        ensures
            session == queue_session(),
            session.namespace@ == "apalis"@,
            session.database@ == "apalis"@,
    {
        Session { namespace: NAMESPACE, database: DATABASE }
    }
}

/// What is to be done next to prepare the database, or how it ended.
pub enum SetupStep {
    /// Read the file at this path.
    ReadScript { path: &'static str },
    /// Select this session; the script is to be run after that.
    SelectSession { session: Session, script: String },
    /// Run this script as a query.
    RunScript { script: String },
    /// Nothing more is to be done.
    Finished(Result<(), Error>),
}

/// How a step turned out.
pub enum SetupEvent {
    /// The text of the file, or the text of the error that reading it met.
    ScriptRead(Result<String, String>),
    /// Whether the session was selected.
    SessionSelected(Result<(), Error>),
    /// The answer to the script.
    ScriptAnswered(Result<Response, Error>),
}

/// What becomes of the attempt to read a query from a file.
pub open spec fn query_of(read: Result<String, String>) -> Result<String, Error> {
    match read {
        Ok(query) => Ok(query),
        Err(message) => Err(thrown_error(message@)),
    }
}

/// The query that was read from a file; the text of an error that reading it
/// met is thrown as a database error.
pub fn query_file_as_str(read: Result<String, String>) -> (query: Result<String, Box<Error>>)
    ensures
        match query {
            Ok(text) => query_of(read) == Ok::<String, Error>(text),
            Err(error) => query_of(read) == Err::<String, Error>(*error),
        },
{
    match read {
        Ok(query) => Ok(query),
        Err(message) => Err(Box::new(thrown(message))),
    }
}

/// Whether an answer is free of errors: that of the query as a whole, and that
/// of its first failing statement.
pub open spec fn outcome_of(answer: Result<Response, Error>) -> Result<(), Error> {
    match answer {
        Ok(response) => match first_error(statement_errors(response)) {
            None => Ok(()),
            Some(error) => Err(error),
        },
        Err(error) => Err(error),
    }
}

/// The step that follows a step that turned out so.
pub open spec fn step_after(step: SetupStep, event: SetupEvent) -> SetupStep {
    match (step, event) {
        (SetupStep::ReadScript { .. }, SetupEvent::ScriptRead(read)) => match query_of(read) {
            Ok(script) => SetupStep::SelectSession { session: queue_session(), script },
            Err(error) => SetupStep::Finished(Err(error)),
        },
        (
            SetupStep::SelectSession { script, .. },
            SetupEvent::SessionSelected(selected),
        ) => match selected {
            Ok(()) => SetupStep::RunScript { script },
            Err(error) => SetupStep::Finished(Err(error)),
        },
        (SetupStep::RunScript { .. }, SetupEvent::ScriptAnswered(answer)) => SetupStep::Finished(
            outcome_of(answer),
        ),
        (step, _) => step,
    }
}

/// The step that the preparation starts with.
pub open spec fn first_step() -> SetupStep {
    SetupStep::ReadScript { path: SCRIPT_PATH }
}

impl SetupStep {
    /// Ends the preparation with what a check of the answer found.
    pub fn conclude(checked: Result<Response, Error>) -> (last: Self)
        ensures
            last == SetupStep::Finished(
                match checked {
                    Ok(_) => Ok(()),
                    Err(error) => Err(error),
                },
            ),
    {
        match checked {
            Ok(_) => SetupStep::Finished(Ok(())),
            Err(error) => SetupStep::Finished(Err(error)),
        }
    }

    /// Goes on from how this step turned out. Another event than the one that
    /// the step leads to is ignored.
    pub fn advance(self, event: SetupEvent) -> (next: Self)
        ensures
            next == step_after(self, event),
    {
        match (self, event) {
            (SetupStep::ReadScript { .. }, SetupEvent::ScriptRead(read)) => {
                match query_file_as_str(read) {
                    Ok(script) => SetupStep::SelectSession {
                        session: Session::of_queues(),
                        script,
                    },
                    Err(error) => SetupStep::Finished(Err(*error)),
                }
            },
            (
                SetupStep::SelectSession { script, .. },
                SetupEvent::SessionSelected(selected),
            ) => match selected {
                Ok(()) => SetupStep::RunScript { script },
                Err(error) => SetupStep::Finished(Err(error)),
            },
            (SetupStep::RunScript { .. }, SetupEvent::ScriptAnswered(answer)) => match answer {
                Ok(response) => Self::conclude(check_response(response)),
                Err(error) => SetupStep::Finished(Err(error)),
            },
            (step, _) => step,
        }
    }
}

/// The preparation succeeds if and only if the script was read, the session was
/// selected, and no statement of the script failed. Otherwise it ends with the
/// error of the first of these that went wrong.
pub proof fn law_setup_ends_with_first_error(
    read: Result<String, String>,
    selected: Result<(), Error>,
    answer: Result<Response, Error>,
)
    ensures
        step_after(
            step_after(
                step_after(first_step(), SetupEvent::ScriptRead(read)),
                SetupEvent::SessionSelected(selected),
            ),
            SetupEvent::ScriptAnswered(answer),
        ) == SetupStep::Finished(
            match query_of(read) {
                Err(error) => Err(error),
                Ok(_) => match selected {
                    Err(error) => Err(error),
                    Ok(()) => outcome_of(answer),
                },
            },
        ),
{
}

/// A script is run only once it was read and the session was selected, and it is
/// the text that was read.
pub proof fn law_script_is_run_as_read(
    read: Result<String, String>,
    selected: Result<(), Error>,
    script: String,
)
    ensures
        step_after(
            step_after(first_step(), SetupEvent::ScriptRead(read)),
            SetupEvent::SessionSelected(selected),
        ) == (SetupStep::RunScript { script }) <==> read == Ok::<String, String>(script)
            && selected is Ok,
{
}

/// The script is run in the session that queues live in.
pub proof fn law_setup_selects_the_session_of_queues(script: String)
    ensures
        step_after(first_step(), SetupEvent::ScriptRead(Ok(script))) == (
        SetupStep::SelectSession { session: queue_session(), script }),
        queue_session().namespace@ == "apalis"@,
        queue_session().database@ == "apalis"@,
{
}

/// Once the preparation has ended, nothing changes how it ended.
pub proof fn law_setup_end_is_final(result: Result<(), Error>, event: SetupEvent)
    ensures
        step_after(SetupStep::Finished(result), event) == SetupStep::Finished(result),
{
}

proof fn lemma_first_error_is_the_first(errors: Seq<Option<Error>>)
    ensures
        match first_error(errors) {
            None => forall|i: int| 0 <= i < errors.len() ==> #[trigger] errors[i] is None,
            Some(error) => exists|i: int|
                {
                    &&& 0 <= i < errors.len()
                    &&& #[trigger] errors[i] == Some(error)
                    &&& forall|j: int| 0 <= j < i ==> #[trigger] errors[j] is None
                },
        },
    decreases errors.len(),
{
    if errors.len() > 0 {
        let rest = errors.drop_first();
        if errors[0] is None {
            lemma_first_error_is_the_first(rest);
            assert forall|j: int| 0 < j < errors.len() implies #[trigger] errors[j] == rest[
                j - 1
            ] by {}
            match first_error(errors) {
                None => {
                    assert forall|i: int| 0 <= i < errors.len() implies #[trigger] errors[i]
                        is None by {
                        if i > 0 {
                            assert(errors[i] == rest[i - 1]);
                        }
                    }
                },
                Some(error) => {
                    let k = choose|k: int|
                        {
                            &&& 0 <= k < rest.len()
                            &&& #[trigger] rest[k] == Some(error)
                            &&& forall|j: int| 0 <= j < k ==> #[trigger] rest[j] is None
                        };
                    assert(errors[k + 1] == Some(error));
                },
            }
        } else {
            assert(errors[0] == first_error(errors));
        }
    }
}

/// The file of a query gives its text; the message of an error that reading it
/// met is thrown.
pub proof fn law_query_is_the_text_of_its_file(
    read: Result<String, String>,
    query: Result<String, Box<Error>>,
)
    requires
        call_ensures(query_file_as_str, (read,), query),
    ensures
        read matches Ok(text) ==> query matches Ok(same) && same == text,
        read matches Err(message) ==> query matches Err(error) && *error == thrown_error(message@),
{
}

/// Queues live in the database `apalis` of the namespace `apalis`.
pub proof fn law_queues_live_in_apalis(session: Session)
    requires
        call_ensures(Session::of_queues, (), session),
    ensures
        session.namespace@ == "apalis"@,
        session.database@ == "apalis"@,
{
}

/// Once the script was read, the session of queues is selected, with the script
/// as it was read still to be run; a failure to read it ends the preparation with
/// the message thrown.
pub proof fn law_reading_leads_to_the_session(
    path: &'static str,
    read: Result<String, String>,
    next: SetupStep,
)
    requires
        call_ensures(
            SetupStep::advance,
            (SetupStep::ReadScript { path }, SetupEvent::ScriptRead(read)),
            next,
        ),
    ensures
        match read {
            Ok(text) => next matches SetupStep::SelectSession { session, script } && {
                &&& session.namespace@ == "apalis"@
                &&& session.database@ == "apalis"@
                &&& script == text
            },
            Err(message) => next matches SetupStep::Finished(Err(error)) && error == thrown_error(
                message@,
            ),
        },
{
}

/// Once the session was selected the script is run as it is; a failure to select
/// it ends the preparation with its error.
pub proof fn law_session_leads_to_the_script(
    session: Session,
    text: String,
    selected: Result<(), Error>,
    next: SetupStep,
)
    requires
        call_ensures(
            SetupStep::advance,
            (
                SetupStep::SelectSession { session, script: text },
                SetupEvent::SessionSelected(selected),
            ),
            next,
        ),
    ensures
        match selected {
            Ok(()) => next matches SetupStep::RunScript { script } && script == text,
            Err(failure) => next matches SetupStep::Finished(Err(error)) && error == failure,
        },
{
}

/// The answer to the script ends the preparation: with success if and only if
/// there was an answer and every statement in it succeeded, and otherwise with
/// the error of the query, or of the first statement that failed.
pub proof fn law_answer_ends_the_preparation(
    script: String,
    answer: Result<Response, Error>,
    next: SetupStep,
)
    requires
        call_ensures(
            SetupStep::advance,
            (SetupStep::RunScript { script }, SetupEvent::ScriptAnswered(answer)),
            next,
        ),
    ensures
        next is Finished,
        match answer {
            Err(failure) => next == SetupStep::Finished(Err(failure)),
            Ok(response) => {
                let errors = statement_errors(response);
                match next {
                    SetupStep::Finished(Ok(())) => forall|i: int|
                        0 <= i < errors.len() ==> #[trigger] errors[i] is None,
                    SetupStep::Finished(Err(error)) => exists|i: int|
                        {
                            &&& 0 <= i < errors.len()
                            &&& #[trigger] errors[i] == Some(error)
                            &&& forall|j: int| 0 <= j < i ==> #[trigger] errors[j] is None
                        },
                    _ => false,
                }
            },
        },
{
    if let Ok(response) = answer {
        lemma_first_error_is_the_first(statement_errors(response));
    }
}

/// The end of the preparation says whether the check of the answer passed, and
/// hands on its error.
pub proof fn law_conclusion_is_that_of_the_check(
    checked: Result<Response, Error>,
    last: SetupStep,
)
    requires
        call_ensures(SetupStep::conclude, (checked,), last),
    ensures
        checked is Ok ==> last == SetupStep::Finished(Ok(())),
        checked matches Err(error) ==> last == SetupStep::Finished(Err(error)),
{
}

/// An event that a step does not lead to leaves the step as it is.
pub proof fn law_other_events_change_nothing(step: SetupStep, event: SetupEvent, next: SetupStep)
    requires
        call_ensures(SetupStep::advance, (step, event), next),
        !(step is ReadScript && event is ScriptRead),
        !(step is SelectSession && event is SessionSelected),
        !(step is RunScript && event is ScriptAnswered),
    ensures
        next == step,
{
}

/// From any path, three steps prepare the database: they end in success if and
/// only if the script was read, the session was selected, and there was an answer
/// in which no statement failed.
pub proof fn law_setup_succeeds_only_as_a_whole(
    path: &'static str,
    read: Result<String, String>,
    selected: Result<(), Error>,
    answer: Result<Response, Error>,
    second: SetupStep,
    third: SetupStep,
    last: SetupStep,
)
    requires
        call_ensures(
            SetupStep::advance,
            (SetupStep::ReadScript { path }, SetupEvent::ScriptRead(read)),
            second,
        ),
        call_ensures(
            SetupStep::advance,
            (second, SetupEvent::SessionSelected(selected)),
            third,
        ),
        call_ensures(SetupStep::advance, (third, SetupEvent::ScriptAnswered(answer)), last),
    ensures
        last is Finished,
        last == SetupStep::Finished(Ok(())) <==> {
            &&& read is Ok
            &&& selected is Ok
            &&& answer matches Ok(response) && forall|i: int|
                0 <= i < statement_errors(response).len() ==> #[trigger] statement_errors(
                    response,
                )[i] is None
        },
        read matches Err(message) ==> last == SetupStep::Finished(Err(thrown_error(message@))),
        read is Ok ==> (selected matches Err(error) ==> last == SetupStep::Finished(Err(error))),
        read is Ok && selected is Ok ==> (answer matches Err(error) ==> last
            == SetupStep::Finished(Err(error))),
{
    if let Ok(response) = answer {
        lemma_first_error_is_the_first(statement_errors(response));
    }
}

} // verus!
