//! What holds of the panel's state after any sequence of events.

use crate::failure::error_text;
use crate::model::{Event, Msg, State};
use vstd::prelude::*;

verus! {

impl State {
    /// The state after the events of `events`, handled in order from `self`.
    pub open spec fn run(self, events: Seq<Event>) -> State
        decreases events.len(),
    {
        if events.len() == 0 {
            self
        } else {
            self.run(events.drop_last()).step(events.last())
        }
    }
}

/// How many of `events` ask for a load.
pub open spec fn loads(events: Seq<Event>) -> nat
    decreases events.len(),
{
    if events.len() == 0 {
        0
    } else if events.last() is Load {
        loads(events.drop_last()) + 1
    } else {
        loads(events.drop_last())
    }
}

/// The text that the latest outcome among `events` puts on display, or
/// `before` where none of them is an outcome.
pub open spec fn latest_text(before: Seq<char>, events: Seq<Event>) -> Seq<char>
    decreases events.len(),
{
    if events.len() == 0 {
        before
    } else {
        match events.last() {
            Event::Load => latest_text(before, events.drop_last()),
            Event::Loaded(body) => body,
            Event::Failed(description) => description,
        }
    }
}

/// Every event takes a valid state to a valid state.
pub proof fn step_keeps_valid(state: State, event: Event)
    requires
        state.valid(),
    ensures
        state.step(event).valid(),
{
}

/// Whatever the events, a panel that started valid stays valid; a new panel
/// in particular.
pub proof fn run_keeps_valid(state: State, events: Seq<Event>)
    requires
        state.valid(),
    ensures
        state.run(events).valid(),
        State::initial().run(events).valid(),
    decreases events.len(),
{
    if events.len() > 0 {
        run_keeps_valid(state, events.drop_last());
        step_keeps_valid(state.run(events.drop_last()), events.last());
        step_keeps_valid(State::initial().run(events.drop_last()), events.last());
    }
}

/// The counter rises by one for each load asked for and by nothing else: on
/// a new panel it is the number of loads asked for.
pub proof fn counter_counts_loads(state: State, events: Seq<Event>)
    ensures
        state.run(events).counter == state.counter + loads(events),
        State::initial().run(events).counter == loads(events),
    decreases events.len(),
{
    if events.len() > 0 {
        counter_counts_loads(state, events.drop_last());
        counter_counts_loads(State::initial(), events.drop_last());
    }
}

/// A load is in flight exactly between the message that asks for one and
/// the next outcome: after some events, exactly when the last of them asks
/// for a load. The token in place then is that of the latest load.
pub proof fn in_flight_after_load(state: State, events: Seq<Event>)
    requires
        events.len() > 0,
    ensures
        state.run(events).pending is Some <==> events.last() is Load,
        events.last() is Load ==> state.run(events).pending == Some(state.run(events).counter),
{
}

/// The text on display is that of the latest outcome, and the text from
/// before where there was none: on a new panel the placeholder.
pub proof fn message_shows_latest_outcome(state: State, events: Seq<Event>)
    ensures
        state.run(events).message == latest_text(state.message, events),
    decreases events.len(),
{
    if events.len() > 0 {
        message_shows_latest_outcome(state, events.drop_last());
    }
}

/// A load that ends well puts its body on display as it came, and changes
/// nothing else but to clear the token.
pub proof fn success_shows_body(state: State, body: String)
    ensures
        state.step(Msg::SetInfo(Ok(body))@) == (State { message: body@, pending: None, ..state }),
{
}

/// A load that fails puts the description of the error on display, and
/// changes nothing else but to clear the token: the counter stays as the
/// message that asked for the load left it.
pub proof fn failure_shows_description(state: State, error: anyhow::Error)
    ensures
        state.step(Msg::SetInfo(Err(error))@) == (State {
            message: error_text(error),
            pending: None,
            ..state
        }),
        state.step(Msg::SetInfo(Err(error))@).counter == state.counter,
{
}

/// After a load failed with an error whose description is not empty, the
/// text on display is not empty.
pub proof fn failure_text_is_not_empty(state: State, error: anyhow::Error)
    requires
        error_text(error).len() > 0,
    ensures
        state.step(Msg::SetInfo(Err(error))@).message.len() > 0,
{
}

} // verus!
