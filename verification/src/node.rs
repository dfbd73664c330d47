//! The page as a tree of elements.

use crate::model::Msg;
use crate::route::AppRoute;
use vstd::prelude::*;

verus! {

/// The kinds of element that the page is made of.
#[derive(Clone, Copy, Debug, PartialEq, Eq, Structural)]
pub enum Tag {
    Body,
    Div,
    Paragraph,
    Button,
    Anchor,
}

/// What activating an element does.
#[derive(Clone, Copy, Debug, PartialEq, Eq, Structural)]
pub enum Action {
    /// Makes the route the active one.
    Go(AppRoute),
    /// Asks the panel for a load.
    Load,
}

/// A node of the page: an element with its children, or a run of text.
#[derive(Debug, PartialEq, Eq)]
pub enum Node {
    Element { tag: Tag, class: String, on_click: Option<Action>, children: Vec<Node> },
    Text(String),
}

/// A node of the page as a mathematical value.
#[verifier::ext_equal]
pub enum Markup {
    Element { tag: Tag, class: Seq<char>, on_click: Option<Action>, children: Seq<Markup> },
    Text(Seq<char>),
}

impl Node {
    /// The node as a mathematical value.
    pub open spec fn markup(self) -> Markup
        decreases self,
    {
        match self {
            Node::Element { tag, class, on_click, children } => Markup::Element {
                tag,
                class: class@,
                on_click,
                children: Seq::new(
                    children@.len(),
                    |i: int|
                        if 0 <= i < children@.len() {
                            children@[i].markup()
                        } else {
                            Markup::Text(Seq::empty())
                        },
                ),
            },
            Node::Text(content) => Markup::Text(content@),
        }
    }
}

impl View for Node {
    type V = Markup;

    open spec fn view(&self) -> Markup {
        self.markup()
    }
}

/// The nodes of `nodes` as mathematical values, in order.
pub open spec fn markups(nodes: Seq<Node>) -> Seq<Markup> {
    Seq::new(nodes.len(), |i: int| nodes[i]@)
}

impl Action {
    /// The message that the action sends to the panel, if it sends one.
    /// Changing the route is the router's work and sends none.
    pub fn msg(self) -> (msg: Option<Msg>)
        ensures
            self is Load ==> msg matches Some(Msg::LoadInfo),
            self is Go ==> msg is None,
    {
        match self {
            Action::Load => Some(Msg::LoadInfo),
            Action::Go(_) => None,
        }
    }
}

impl Markup {
    /// A link that shows `label` and leads to `to`.
    pub open spec fn link(to: AppRoute, label: Seq<char>) -> Markup {
        Markup::Element {
            tag: Tag::Anchor,
            class: ""@,
            on_click: Some(Action::Go(to)),
            children: seq![Markup::Text(label)],
        }
    }

    /// Whether the node or one below it is a link to `route`.
    pub open spec fn links_to(self, route: AppRoute) -> bool
        decreases self,
    {
        match self {
            Markup::Element { on_click, children, .. } => {
                ||| on_click == Some(Action::Go(route))
                ||| exists|i: int| 0 <= i < children.len() && (#[trigger] children[i]).links_to(route)
            },
            Markup::Text(_) => false,
        }
    }
}

impl Node {
    /// A run of text.
    pub fn text(content: &str) -> (node: Node)
        ensures
            node@ == Markup::Text(content@),
    {
        Node::Text(content.to_string())
    }

    /// An element with the given children.
    pub fn element(
        tag: Tag,
        class: &str,
        on_click: Option<Action>,
        children: Vec<Node>,
    ) -> (node: Node)
        ensures
            node@ == (Markup::Element { tag, class: class@, on_click, children: markups(children@) }),
    {
        let ghost below = markups(children@);
        let node = Node::Element { tag, class: class.to_string(), on_click, children };
        assert(node@->children =~= below);
        node
    }

    /// A link that shows `label` and leads to `to`.
    pub fn link(to: AppRoute, label: &str) -> (node: Node)
        ensures
            node@ == Markup::link(to, label@),
    {
        let children = vec![Node::text(label)];
        assert(markups(children@) =~= seq![Markup::Text(label@)]);
        Node::element(Tag::Anchor, "", Some(Action::Go(to)), children)
    }

    /// Tells whether the node or one below it is a link to `route`.
    pub fn links_to(&self, route: AppRoute) -> (found: bool)
        ensures
            found == self@.links_to(route),
        decreases self,
    {
        match self {
            Node::Text(_) => false,
            Node::Element { on_click, children, .. } => {
                if let Some(Action::Go(to)) = on_click {
                    if *to == route {
                        return true;
                    }
                }
                let mut i: usize = 0;
                while i < children.len()
                    invariant
                        i <= children.len(),
                        *self matches Node::Element { children: below, .. } && below == *children,
                        forall|k: int| 0 <= k < i ==> !(#[trigger] children@[k]).markup().links_to(route),
                    decreases children.len() - i,
                {
                    if children[i].links_to(route) {
                        assert(self@->children[i as int].links_to(route));
                        return true;
                    }
                    i += 1;
                }
                assert forall|k: int| 0 <= k < self@->children.len() implies !(#[trigger] self@->children[k]).links_to(
                    route,
                ) by {
                    assert(!children@[k].markup().links_to(route));
                }
                false
            },
        }
    }
}

} // verus!
