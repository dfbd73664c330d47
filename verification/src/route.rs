//! The two client-side routes and how a location is matched against them.
//!
//! A location is the path of the page's address with its query and its
//! fragment. It is matched as `yew_router` matches a location against the
//! literals of a switch: a route takes every location that begins with its
//! literal, letters compared without regard to case, and the routes are tried
//! in the order of the variants.

use vstd::prelude::*;

verus! {

/// A route of the application.
///
/// The variants are listed in the order in which a location is tried against
/// them: `Test` before `Index`, because every location that `Test` matches
/// is matched by `Index` as well.
#[derive(Clone, Copy, Debug, PartialEq, Eq, Structural)]
pub enum AppRoute {
    Test,
    Index,
}

/// The code point of `c`, with the letters `A` to `Z` mapped to `a` to `z`.
pub open spec fn fold_case(c: char) -> int {
    if 'A' as int <= c as int <= 'Z' as int {
        c as int + 32
    } else {
        c as int
    }
}

/// Whether `location` begins with `literal`, where letters that differ only
/// in ASCII case count as equal.
pub open spec fn begins_with(location: Seq<char>, literal: Seq<char>) -> bool {
    &&& literal.len() <= location.len()
    &&& forall|i: int| 0 <= i < literal.len() ==> fold_case(#[trigger] location[i]) == fold_case(literal[i])
}

fn fold(c: char) -> (n: u32)
    ensures
        n == fold_case(c),
{
    let n: u32 = c as u32;
    if 65 <= n && n <= 90 {
        n + 32
    } else {
        n
    }
}

/// Tells whether `location` begins with `literal`, ignoring ASCII case.
pub fn has_prefix(location: &str, literal: &str) -> (found: bool)
    ensures
        found == begins_with(location@, literal@),
{
    let wanted: usize = literal.unicode_len();
    let given: usize = location.unicode_len();
    if given < wanted {
        return false;
    }
    let mut i: usize = 0;
    while i < wanted
        invariant
            wanted == literal@.len(),
            given == location@.len(),
            wanted <= given,
            i <= wanted,
            forall|k: int| 0 <= k < i ==> fold_case(#[trigger] location@[k]) == fold_case(literal@[k]),
        decreases wanted - i,
    {
        if fold(location.get_char(i)) != fold(literal.get_char(i)) {
            return false;
        }
        i += 1;
    }
    true
}

impl AppRoute {
    /// The location that stands for the route, and the literal that a
    /// location has to begin with to be matched by it.
    pub open spec fn spec_path(self) -> Seq<char> {
        match self {
            AppRoute::Test => "/test"@,
            AppRoute::Index => "/"@,
        }
    }

    /// The route that a location leads to: the first one, in the order of
    /// the variants, whose literal the location begins with. The rest of the
    /// location does not count, so that a query or a fragment may follow.
    pub open spec fn spec_switch(location: Seq<char>) -> Option<AppRoute> {
        if begins_with(location, AppRoute::Test.spec_path()) {
            Some(AppRoute::Test)
        } else if begins_with(location, AppRoute::Index.spec_path()) {
            Some(AppRoute::Index)
        } else {
            None
        }
    }

    /// The route that the fragment shown on this route links to.
    pub open spec fn spec_other(self) -> AppRoute {
        match self {
            AppRoute::Test => AppRoute::Index,
            AppRoute::Index => AppRoute::Test,
        }
    }

    /// The location that stands for the route.
    pub fn to_path(self) -> (path: &'static str)
        ensures
            path@ == self.spec_path(),
    {
        match self {
            AppRoute::Test => "/test",
            AppRoute::Index => "/",
        }
    }

    /// Finds the route that `location` leads to, if it leads to one.
    pub fn switch(location: &str) -> (route: Option<AppRoute>)
        ensures
            route == AppRoute::spec_switch(location@),
    {
        if has_prefix(location, AppRoute::Test.to_path()) {
            Some(AppRoute::Test)
        } else if has_prefix(location, AppRoute::Index.to_path()) {
            Some(AppRoute::Index)
        } else {
            None
        }
    }

    /// The route that the fragment shown on this route links to.
    pub fn other(self) -> (route: AppRoute)
        ensures
            route == self.spec_other(),
    {
        match self {
            AppRoute::Test => AppRoute::Index,
            AppRoute::Index => AppRoute::Test,
        }
    }
}

/// The literals of the routes, character by character.
pub proof fn paths_spelled_out()
    ensures
        AppRoute::Test.spec_path() == seq!['/', 't', 'e', 's', 't'],
        AppRoute::Index.spec_path() == seq!['/'],
{
    reveal_strlit("/test");
    reveal_strlit("/");
    assert(AppRoute::Test.spec_path() =~= seq!['/', 't', 'e', 's', 't']);
    assert(AppRoute::Index.spec_path() =~= seq!['/']);
}

/// A location leads to a route exactly if it begins with a slash.
pub proof fn switch_needs_slash(location: Seq<char>)
    ensures
        AppRoute::spec_switch(location) is Some <==> location.len() > 0 && location[0] == '/',
{
    paths_spelled_out();
    if location.len() > 0 && location[0] == '/' {
        assert(begins_with(location, AppRoute::Index.spec_path()));
    }
    if begins_with(location, AppRoute::Test.spec_path()) {
        assert(fold_case(location[0]) == fold_case('/'));
    }
    if begins_with(location, AppRoute::Index.spec_path()) {
        assert(fold_case(location[0]) == fold_case('/'));
    }
}

/// The location that stands for a route leads back to that route.
pub proof fn path_leads_back(route: AppRoute)
    ensures
        AppRoute::spec_switch(route.spec_path()) == Some(route),
{
    paths_spelled_out();
    assert(begins_with(route.spec_path(), route.spec_path()));
    if route == AppRoute::Index {
        assert(!begins_with(route.spec_path(), AppRoute::Test.spec_path()));
    }
}

/// The location that stands for a route still leads to that route when a
/// query or a fragment follows it, unless what follows turns the index into
/// the test route.
pub proof fn path_with_rest_leads_back(route: AppRoute, rest: Seq<char>)
    requires
        route == AppRoute::Index ==> !begins_with(rest, seq!['t', 'e', 's', 't']),
    ensures
        AppRoute::spec_switch(route.spec_path() + rest) == Some(route),
{
    paths_spelled_out();
    let location = route.spec_path() + rest;
    assert(begins_with(location, route.spec_path()));
    if route == AppRoute::Index && begins_with(location, AppRoute::Test.spec_path()) {
        let literal = seq!['t', 'e', 's', 't'];
        assert forall|i: int| 0 <= i < literal.len() implies fold_case(#[trigger] rest[i])
            == fold_case(literal[i]) by {
            assert(rest[i] == location[i + 1]);
            assert(fold_case(location[i + 1]) == fold_case(AppRoute::Test.spec_path()[i + 1]));
        }
    }
}

} // verus!
