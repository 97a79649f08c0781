//! The mathematical model of the service: the read-state (link table and
//! click counters) together with the event log, and the step predicates
//! that the command handlers are proved to follow.

use vstd::prelude::*;

verus! {

/// A domain event, as it appears in the model of the append-only log.
pub enum EventView {
    /// A short link was created, or its URL was reassigned.
    Created { slug: Seq<char>, url: Seq<char> },
    /// A redirect occurred for the slug.
    Redirected { slug: Seq<char> },
}

/// The whole observable state of the service: the slug-to-URL link table,
/// the per-slug click counters, and the ordered event log.
pub struct StateView {
    pub links: Map<Seq<char>, Seq<char>>,
    pub clicks: Map<Seq<char>, u64>,
    pub events: Seq<EventView>,
}

/// The state of a freshly created service: no links, no clicks, no events.
pub open spec fn initial_state() -> StateView {
    StateView { links: Map::empty(), clicks: Map::empty(), events: Seq::empty() }
}

/// The click count recorded for `slug`; absence in the counter map means
/// zero.
pub open spec fn clicks_of(s: StateView, slug: Seq<char>) -> u64 {
    if s.clicks.contains_key(slug) {
        s.clicks[slug]
    } else {
        0
    }
}

/// One creation step: a `Created` event is appended, the link table maps
/// `slug` to `url` (inserting or overwriting), and the click counters are
/// untouched. Both creating a link and changing its URL take this step.
pub open spec fn created_step(
    pre: StateView,
    post: StateView,
    slug: Seq<char>,
    url: Seq<char>,
) -> bool {
    &&& post.links == pre.links.insert(slug, url)
    &&& post.clicks == pre.clicks
    &&& post.events == pre.events.push(EventView::Created { slug, url })
}

/// One redirect step: the slug is mapped, a `Redirected` event is appended,
/// its click counter grows by exactly one, and the link table is untouched.
pub open spec fn redirect_step(pre: StateView, post: StateView, slug: Seq<char>) -> bool {
    &&& pre.links.contains_key(slug)
    &&& clicks_of(pre, slug) < u64::MAX
    &&& post.links == pre.links
    &&& post.clicks == pre.clicks.insert(slug, (clicks_of(pre, slug) + 1) as u64)
    &&& post.events == pre.events.push(EventView::Redirected { slug })
}

/// The number of characters in a generated slug.
pub const SLUG_LENGTH: usize = 8;

/// The number of distinct generated slugs: 62 choices (letters of either
/// case and digits) for each of the [`SLUG_LENGTH`] characters. A link
/// table below this size always leaves a fresh slug to generate.
pub const SLUG_SPACE: u64 = 218340105584896;

/// A character of the alphabet that generated slugs are drawn from:
/// ASCII letters (either case) and digits.
pub open spec fn is_slug_char(c: char) -> bool {
    ||| 'a' <= c && c <= 'z'
    ||| 'A' <= c && c <= 'Z'
    ||| '0' <= c && c <= '9'
}

/// The shape of every slug the service generates itself: exactly
/// [`SLUG_LENGTH`] alphanumeric characters.
pub open spec fn is_generated_slug(s: Seq<char>) -> bool {
    &&& s.len() == SLUG_LENGTH
    &&& forall|i: int| 0 <= i < s.len() ==> is_slug_char(#[trigger] s[i])
}

} // verus!
