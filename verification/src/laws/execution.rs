//! What holds of every execution: theorems about [`ExecState::next`].

use vstd::prelude::*;
use vstd::utf8::valid_utf8;

use crate::error::{exit_failure, Error};
use crate::exec::{after_exit, kept_bytes, kept_text, Event, ExecState};
use crate::streams::Capture;

verus! {

/// Exit-status classification: the end of a child process is a success, a
/// failure with its exit code, or an unexpected termination, and exactly one
/// of the three. The code 0 alone is the success, and the child without a
/// code alone the unexpected termination.
pub proof fn law_exit_is_classified(code: Option<i32>)
    ensures
        exit_failure(code) is None <==> code == Some(0i32),
        exit_failure(code) == Some(Error::UnexpectedTermination) <==> code is None,
        code matches Some(c) ==> c != 0 ==> exit_failure(code) == Some(Error::StatusFailure(c)),
        exit_failure(code) matches Some(Error::StatusFailure(c)) ==> code == Some(c) && c != 0,
        !(exit_failure(code) matches Some(Error::Io(_))),
        !(exit_failure(code) matches Some(Error::NotUtf8)),
{
}

/// UTF-8 enforcement: output that is read for a text sink and is not UTF-8
/// fails the execution with `NotUtf8`, and the sink keeps nothing of it. A
/// byte sink takes any output as it is.
pub proof fn law_text_is_utf8(feeds: bool, output: Vec<u8>)
    ensures
        !valid_utf8(output@) ==> {
            let end = ExecState::Waited.next(feeds, Capture::Text, Event::Output(output));
            &&& end == ExecState::Failed(Error::NotUtf8)
            &&& kept_text(end, Event::Output(output)) == Seq::<char>::empty()
        },
        valid_utf8(output@) ==> ExecState::Waited.next(
            feeds,
            Capture::Text,
            Event::Output(output),
        ) is Succeeded,
        ({
            let end = ExecState::Waited.next(feeds, Capture::Bytes, Event::Output(output));
            &&& end is Succeeded
            &&& kept_bytes(end, Event::Output(output)) == output@
        }),
{
}

/// No execution succeeds past a failure: from a child that did not end with
/// the exit code 0 no output is asked for, and the execution is over.
pub proof fn law_output_only_after_success(
    state: ExecState,
    feeds: bool,
    capture: Capture,
    code: Option<i32>,
)
    requires
        state is InputWritten || state is NoInput,
    ensures
        ({
            let next = state.next(feeds, capture, Event::Exited(code));
            &&& next is Waited <==> code == Some(0i32) && capture != Capture::Nothing
            &&& next is Succeeded <==> code == Some(0i32) && capture == Capture::Nothing
            &&& next is Failed <==> code != Some(0i32)
        }),
{
}

/// What a caller reports of a child that is spawned, is written its input
/// where the command feeds it, ends with `code`, and, where the command asks
/// for its output, has written `output`.
pub open spec fn child_events(
    feeds: bool,
    capture: Capture,
    code: Option<i32>,
    output: Vec<u8>,
) -> Seq<Event> {
    let started = if feeds {
        seq![Event::Spawned, Event::InputWritten]
    } else {
        seq![Event::Spawned]
    };
    let ended = started.push(Event::Exited(code));
    if code == Some(0i32) && capture != Capture::Nothing {
        ended.push(Event::Output(output))
    } else {
        ended
    }
}

/// The result that is owed for a child that ended with `code` and wrote
/// `output`: its failure where it did not end with the exit code 0, `NotUtf8`
/// where the output is kept as text and is none, and success otherwise.
pub open spec fn owed_result(capture: Capture, code: Option<i32>, output: Vec<u8>) -> Result<
    (),
    Error,
> {
    match exit_failure(code) {
        Some(e) => Err(e),
        None => if capture == Capture::Text && !valid_utf8(output@) {
            Err(Error::NotUtf8)
        } else {
            Ok(())
        },
    }
}

/// The execution as a whole: on the events of a child that was spawned, the
/// execution is over exactly with the last of them, and its result is the
/// one that is owed.
pub proof fn law_execution(feeds: bool, capture: Capture, code: Option<i32>, output: Vec<u8>)
    ensures
        ({
            let events = child_events(feeds, capture, code, output);
            let end = ExecState::NotStarted.after(feeds, capture, events);
            &&& end.is_final()
            &&& end.result() == owed_result(capture, code, output)
            &&& !ExecState::NotStarted.after(feeds, capture, events.drop_last()).is_final()
        }),
{
    let start = ExecState::NotStarted;
    let spawned = seq![Event::Spawned];
    assert(spawned.drop_last() =~= Seq::<Event>::empty());
    assert(start.after(feeds, capture, spawned) == if feeds {
        ExecState::Spawned
    } else {
        ExecState::NoInput
    }) by {
        reveal_with_fuel(ExecState::after, 2);
    }
    let started = if feeds {
        seq![Event::Spawned, Event::InputWritten]
    } else {
        spawned
    };
    if feeds {
        assert(started.drop_last() =~= spawned);
    }
    let running = start.after(feeds, capture, started);
    assert(running is InputWritten || running is NoInput);
    let ended = started.push(Event::Exited(code));
    assert(ended.drop_last() =~= started);
    let exited = start.after(feeds, capture, ended);
    assert(exited == after_exit(code, capture));
    if code == Some(0i32) && capture != Capture::Nothing {
        let events = ended.push(Event::Output(output));
        assert(events.drop_last() =~= ended);
    }
}

/// A spawn that fails is the end of the execution, with the error of the
/// spawn, and so is a failure to write the input or to read the output.
pub proof fn law_operation_failure(
    state: ExecState,
    feeds: bool,
    capture: Capture,
    error: std::io::Error,
)
    requires
        !state.is_final(),
    ensures
        state.next(feeds, capture, Event::Failed(error)) == ExecState::Failed(Error::Io(error)),
{
}

} // verus!
