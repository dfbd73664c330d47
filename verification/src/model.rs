//! The panel's state and the messages that change it.

use crate::failure::{describe, error_text};
use vstd::prelude::*;

verus! {

/// Where the document is loaded from.
pub const INFO_URL: &'static str = "https://www.reddit.com/r/TheMotte/top.json";

/// Whether the page has to be drawn again after a message was handled.
pub type ShouldRender = bool;

/// A message to the panel.
#[derive(Debug)]
pub enum Msg {
    /// Asks for the document to be loaded.
    LoadInfo,
    /// Delivers the outcome of a load: the body as text, or the error.
    SetInfo(Result<String, anyhow::Error>),
}

/// What a message means to the state.
pub enum Event {
    /// A load was asked for.
    Load,
    /// A load ended with this body.
    Loaded(Seq<char>),
    /// A load failed; the text describes the error.
    Failed(Seq<char>),
}

impl View for Msg {
    type V = Event;

    open spec fn view(&self) -> Event {
        match self {
            Msg::LoadInfo => Event::Load,
            Msg::SetInfo(Ok(body)) => Event::Loaded(body@),
            Msg::SetInfo(Err(error)) => Event::Failed(error_text(*error)),
        }
    }
}

/// The token of a load that was asked for and has not ended yet.
#[derive(Clone, Copy, Debug, PartialEq, Eq, Structural)]
pub struct FetchToken {
    serial: i64,
}

impl FetchToken {
    /// The number of the load among all loads of the panel, counted from 1.
    pub closed spec fn spec_serial(self) -> int {
        self.serial as int
    }

    /// The number of the load among all loads of the panel, counted from 1.
    pub fn serial(self) -> (n: i64)
        ensures
            n == self.spec_serial(),
    {
        self.serial
    }
}

/// Outside work that a message asks for. The panel does not carry it out:
/// whoever drives the panel does, and reports the outcome as
/// [`Msg::SetInfo`].
#[derive(Debug)]
pub enum Effect {
    /// Send an HTTP GET request without a body to `url`.
    Get { url: String },
}

/// What handling a message resulted in, beside the new state.
#[derive(Debug)]
pub struct Update {
    /// Whether the page has to be drawn again.
    pub should_render: ShouldRender,
    /// The outside work to carry out, if any.
    pub effect: Option<Effect>,
}

/// The state of the panel as a mathematical value.
#[verifier::ext_equal]
pub struct State {
    /// How many loads were asked for.
    pub counter: int,
    /// The text on display.
    pub message: Seq<char>,
    /// The serial of the load in flight, if there is one.
    pub pending: Option<int>,
}

impl State {
    /// The state the panel starts in.
    pub open spec fn initial() -> State {
        State { counter: 0, message: "..."@, pending: None }
    }

    /// The state after a load was asked for: it is counted, and it replaces
    /// whatever load was in flight.
    pub open spec fn load(self) -> State {
        State { counter: self.counter + 1, pending: Some(self.counter + 1), ..self }
    }

    /// The state after a load ended with `text` to display, whichever load
    /// it was.
    pub open spec fn settle(self, text: Seq<char>) -> State {
        State { message: text, pending: None, ..self }
    }

    /// The state after `event`.
    pub open spec fn step(self, event: Event) -> State {
        match event {
            Event::Load => self.load(),
            Event::Loaded(body) => self.settle(body),
            Event::Failed(description) => self.settle(description),
        }
    }

    /// What holds of every state the panel can be in: loads are counted
    /// from zero, and a load in flight is the latest one.
    pub open spec fn valid(self) -> bool {
        &&& 0 <= self.counter
        &&& self.pending matches Some(serial) ==> serial == self.counter && 1 <= serial
    }
}

/// The panel: a counter of loads, the text on display, and the token of the
/// load in flight. Its state is always [`State::valid`].
#[derive(Debug)]
pub struct Model {
    value: i64,
    msg: String,
    fetch_task: Option<FetchToken>,
}

impl Model {
    #[verifier::type_invariant]
    spec fn inv(self) -> bool {
        self.state().valid()
    }

    /// The panel's state as a mathematical value.
    pub closed spec fn state(self) -> State {
        State {
            counter: self.value as int,
            message: self.msg@,
            pending: match self.fetch_task {
                Some(token) => Some(token.spec_serial()),
                None => None,
            },
        }
    }

    /// A new panel: nothing loaded, nothing in flight, the placeholder on
    /// display.
    pub fn create(_props: ()) -> (model: Model)
        ensures
            model.state() == State::initial(),
            model.state().valid(),
    {
        Model { value: 0, msg: "...".to_string(), fetch_task: None }
    }

    /// Counts a load, puts its token in place of the one in flight, and
    /// tells which request to send. A load that was in flight is not called
    /// off: its outcome is still taken when it comes.
    pub fn load_info(&mut self) -> (effect: Effect)
        requires
            old(self).state().counter < i64::MAX,
        ensures
            final(self).state() == old(self).state().load(),
            final(self).state().valid(),
            effect matches Effect::Get { url } && url@ == INFO_URL@,
    {
        proof {
            use_type_invariant(&*self);
        }
        // The token in flight goes before the count moves on: a token in
        // place is always that of the latest load.
        self.fetch_task = None;
        self.value += 1;
        self.fetch_task = Some(FetchToken { serial: self.value });
        Effect::Get { url: INFO_URL.to_string() }
    }

    /// Puts `text` on display, as it is, and clears the token: a load has
    /// ended, whichever it was, and `text` is its body or the description of
    /// its error.
    pub fn set_info(&mut self, text: String)
        ensures
            final(self).state() == old(self).state().settle(text@),
            final(self).state().valid(),
    {
        proof {
            use_type_invariant(&*self);
        }
        self.msg = text;
        self.fetch_task = None;
    }

    /// Handles `msg`: [`Msg::LoadInfo`] as [`Model::load_info`] does, and
    /// [`Msg::SetInfo`] as [`Model::set_info`] does, with the body of a load
    /// that went well and the description of the error of one that failed.
    /// Either way the page has to be drawn again.
    pub fn update(&mut self, msg: Msg) -> (out: Update)
        requires
            msg is LoadInfo ==> old(self).state().counter < i64::MAX,
        ensures
            final(self).state() == old(self).state().step(msg@),
            final(self).state().valid(),
            out.should_render,
            out.effect is Some <==> msg is LoadInfo,
            out.effect matches Some(Effect::Get { url }) ==> url@ == INFO_URL@,
    {
        match msg {
            Msg::LoadInfo => {
                let effect = self.load_info();
                Update { should_render: true, effect: Some(effect) }
            },
            Msg::SetInfo(response) => {
                let text = match response {
                    Ok(body) => body,
                    Err(error) => describe(&error),
                };
                self.set_info(text);
                Update { should_render: true, effect: None }
            },
        }
    }

    /// Takes what the host passes down to the panel. That is nothing, so
    /// nothing changes and nothing has to be drawn again.
    pub fn change(&mut self, _props: ()) -> (should_render: ShouldRender)
        ensures
            *final(self) == *old(self),
            !should_render,
    {
        false
    }

    /// Tells what to do after the page was drawn: after the first time, the
    /// message that asks for the first load; after every later time,
    /// nothing.
    pub fn rendered(&mut self, first_render: bool) -> (msg: Option<Msg>)
        ensures
            *final(self) == *old(self),
            first_render ==> msg matches Some(Msg::LoadInfo),
            !first_render ==> msg is None,
    {
        if first_render {
            Some(Msg::LoadInfo)
        } else {
            None
        }
    }

    /// How many loads were asked for.
    pub fn value(&self) -> (n: i64)
        ensures
            n == self.state().counter,
            0 <= n,
    {
        proof {
            use_type_invariant(self);
        }
        self.value
    }

    /// The text on display.
    pub fn msg(&self) -> (text: &str)
        ensures
            text@ == self.state().message,
    {
        self.msg.as_str()
    }

    /// The token of the load in flight, if there is one.
    pub fn fetch_task(&self) -> (token: Option<FetchToken>)
        ensures
            token is Some <==> self.state().pending is Some,
            token matches Some(t) ==> self.state().pending == Some(t.spec_serial())
                && t.spec_serial() == self.state().counter,
    {
        proof {
            use_type_invariant(self);
        }
        self.fetch_task
    }
}

} // verus!
