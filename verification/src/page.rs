//! How the panel is laid out on the page.

use crate::decimal::{decimal, decimal_reads_back, decimal_text};
use crate::model::{Model, State};
use crate::node::{markups, Action, Markup, Node, Tag};
use crate::route::AppRoute;
use vstd::prelude::*;

verus! {

impl Markup {
    /// What is shown on `route`: a link to the other route.
    pub open spec fn fragment(route: AppRoute) -> Markup {
        match route {
            AppRoute::Test => Markup::link(AppRoute::Index, "Index"@),
            AppRoute::Index => Markup::Element {
                tag: Tag::Div,
                class: ""@,
                on_click: None,
                children: seq![Markup::link(AppRoute::Test, "Test"@)],
            },
        }
    }

    /// What is shown where the routes go: the fragment of the active route,
    /// or a notice where the location leads to none.
    pub open spec fn outlet(route: Option<AppRoute>) -> Markup {
        match route {
            Some(active) => Markup::fragment(active),
            None => Markup::Text("No route matched"@),
        }
    }

    /// The panel itself: the button that asks for a load, the counter in
    /// decimal, and the text on display.
    pub open spec fn panel(state: State) -> Markup {
        Markup::Element {
            tag: Tag::Div,
            class: "border-t-1"@,
            on_click: None,
            children: seq![
                Markup::Element {
                    tag: Tag::Button,
                    class: "border-2 rounded p-2 bg-purple-200"@,
                    on_click: Some(Action::Load),
                    children: seq![Markup::Text("Refresh"@)],
                },
                Markup::Element {
                    tag: Tag::Paragraph,
                    class: ""@,
                    on_click: None,
                    children: seq![Markup::Text(decimal(state.counter as nat))],
                },
                Markup::Element {
                    tag: Tag::Div,
                    class: "monospace overflow"@,
                    on_click: None,
                    children: seq![Markup::Text(state.message)],
                },
            ],
        }
    }

    /// The whole page for a panel in `state` when the browser is at
    /// `location`.
    pub open spec fn page(state: State, location: Seq<char>) -> Markup {
        Markup::Element {
            tag: Tag::Body,
            class: ""@,
            on_click: None,
            children: seq![
                Markup::Element {
                    tag: Tag::Div,
                    class: "container mx-auto"@,
                    on_click: None,
                    children: seq![
                        Markup::outlet(AppRoute::spec_switch(location)),
                        Markup::panel(state),
                    ],
                },
            ],
        }
    }
}

impl Node {
    /// What is shown on `route`: a link to the other route.
    pub fn fragment(route: AppRoute) -> (node: Node)
        ensures
            node@ == Markup::fragment(route),
    {
        match route {
            AppRoute::Test => Node::link(AppRoute::Index, "Index"),
            AppRoute::Index => {
                let children = vec![Node::link(AppRoute::Test, "Test")];
                assert(markups(children@) =~= seq![Markup::link(AppRoute::Test, "Test"@)]);
                Node::element(Tag::Div, "", None, children)
            },
        }
    }

    /// What is shown where the routes go.
    pub fn outlet(route: Option<AppRoute>) -> (node: Node)
        ensures
            node@ == Markup::outlet(route),
    {
        match route {
            Some(active) => Node::fragment(active),
            None => Node::text("No route matched"),
        }
    }
}

impl Model {
    /// The panel itself, for the state the panel is in.
    pub fn panel(&self) -> (node: Node)
        ensures
            node@ == Markup::panel(self.state()),
    {
        let label = vec![Node::text("Refresh")];
        assert(markups(label@) =~= seq![Markup::Text("Refresh"@)]);
        let button = Node::element(
            Tag::Button,
            "border-2 rounded p-2 bg-purple-200",
            Some(Action::Load),
            label,
        );

        let count = decimal_text(self.value() as u64);
        let number = vec![Node::text(count.as_str())];
        assert(markups(number@) =~= seq![Markup::Text(decimal(self.state().counter as nat))]);
        let counter = Node::element(Tag::Paragraph, "", None, number);

        let text = vec![Node::text(self.msg())];
        assert(markups(text@) =~= seq![Markup::Text(self.state().message)]);
        let message = Node::element(Tag::Div, "monospace overflow", None, text);

        let ghost parts = seq![button@, counter@, message@];
        let children = vec![button, counter, message];
        assert(markups(children@) =~= parts);
        Node::element(Tag::Div, "border-t-1", None, children)
    }

    /// Draws the page for the state the panel is in, with the browser at
    /// `location`.
    pub fn view(&self, location: &str) -> (node: Node)
        ensures
            node@ == Markup::page(self.state(), location@),
    {
        let outlet = Node::outlet(AppRoute::switch(location));
        let panel = self.panel();
        let ghost parts = seq![outlet@, panel@];
        let inner = vec![outlet, panel];
        assert(markups(inner@) =~= parts);
        let container = Node::element(Tag::Div, "container mx-auto", None, inner);
        let ghost whole = seq![container@];
        let outer = vec![container];
        assert(markups(outer@) =~= whole);
        Node::element(Tag::Body, "", None, outer)
    }
}

/// The fragment shown on a route holds a link to the other route, and so
/// does every page drawn for a location that leads to the route.
pub proof fn page_links_to_other_route(state: State, location: Seq<char>, route: AppRoute)
    requires
        AppRoute::spec_switch(location) == Some(route),
    ensures
        Markup::fragment(route).links_to(route.spec_other()),
        Markup::page(state, location).links_to(route.spec_other()),
{
    let other = route.spec_other();
    let fragment = Markup::fragment(route);
    if route == AppRoute::Index {
        assert(fragment->children[0].links_to(other));
    }
    let container = Markup::page(state, location)->children[0];
    assert(container->children[0].links_to(other));
    assert(container.links_to(other));
}

/// Drawing depends on the state and the location alone: panels in the same
/// state are drawn as the same page, however often.
pub proof fn page_follows_state(first: Model, second: Model, location: Seq<char>)
    requires
        first.state() == second.state(),
    ensures
        Markup::page(first.state(), location) == Markup::page(second.state(), location),
{
}

/// The page shows the counter and the text as they are: pages that are the
/// same were drawn for the same counter and the same text.
pub proof fn page_shows_state(first: State, second: State, location: Seq<char>)
    requires
        first.valid(),
        second.valid(),
        Markup::page(first, location) == Markup::page(second, location),
    ensures
        first.counter == second.counter,
        first.message == second.message,
{
    let a = Markup::page(first, location)->children[0]->children[1];
    let b = Markup::page(second, location)->children[0]->children[1];
    assert(a == Markup::panel(first));
    assert(b == Markup::panel(second));
    assert(a->children[1]->children[0] == Markup::Text(decimal(first.counter as nat)));
    assert(b->children[1]->children[0] == Markup::Text(decimal(second.counter as nat)));
    assert(a->children[2]->children[0] == Markup::Text(first.message));
    assert(b->children[2]->children[0] == Markup::Text(second.message));
    decimal_reads_back(first.counter as nat);
    decimal_reads_back(second.counter as nat);
}

} // verus!
