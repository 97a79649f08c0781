//! Laws that relate several operations, stated over the model and proved
//! once and for all; the handlers' own contracts tie each executable
//! operation to the step predicates these lemmas speak of.

use vstd::prelude::*;

use crate::model::{clicks_of, created_step, redirect_step, StateView};

verus! {

/// Redirect monotonicity: across any chain of successful redirects on the
/// same slug, the click count grows by exactly one per redirect, so a
/// chain of `N` redirects raises it by `N`.
pub proof fn lemma_redirect_monotonicity(states: Seq<StateView>, slug: Seq<char>)
    requires
        states.len() >= 1,
        forall|i: int|
            0 <= i < states.len() - 1 ==> #[trigger] redirect_step(states[i], states[i + 1], slug),
    ensures
        clicks_of(states.last(), slug) == clicks_of(states.first(), slug) + states.len() - 1,
    decreases states.len(),
{
    if states.len() > 1 {
        let prefix = states.drop_last();
        assert forall|i: int|
            0 <= i < prefix.len() - 1 implies #[trigger] redirect_step(
            prefix[i],
            prefix[i + 1],
            slug,
        ) by {
            assert(prefix[i] == states[i]);
            assert(prefix[i + 1] == states[i + 1]);
            assert(redirect_step(states[i], states[i + 1], slug));
        }
        lemma_redirect_monotonicity(prefix, slug);
        let j: int = states.len() - 2;
        assert(redirect_step(states[j], states[j + 1], slug));
        assert(states[j + 1] == states.last());
        assert(prefix.last() == states[j]);
        assert(prefix.first() == states.first());
    }
}

/// Change idempotent URL visibility: after a URL change on a slug, the
/// link table reports the new URL for it — the prior URL is no longer
/// observable there — every other slug is untouched, and so is the
/// slug's click count.
pub proof fn lemma_change_url_visibility(
    pre: StateView,
    post: StateView,
    slug: Seq<char>,
    new_url: Seq<char>,
)
    requires
        created_step(pre, post, slug, new_url),
    ensures
        post.links.contains_key(slug),
        post.links[slug] == new_url,
        clicks_of(post, slug) == clicks_of(pre, slug),
        forall|other: Seq<char>| other != slug ==> #[trigger] post.links.contains_key(other)
            == pre.links.contains_key(other),
        forall|other: Seq<char>| other != slug && pre.links.contains_key(other)
            ==> #[trigger] post.links[other] == pre.links[other],
{
}

/// Not-found consistency, on the model: a slug with no mapping admits no
/// redirect step at all, whatever state would come after.
pub proof fn lemma_unknown_slug_has_no_redirect(pre: StateView, post: StateView, slug: Seq<char>)
    requires
        !pre.links.contains_key(slug),
    ensures
        !redirect_step(pre, post, slug),
{
}

} // verus!
