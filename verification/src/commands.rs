//! Commands for CQRS.

use vstd::prelude::*;

use crate::model::{clicks_of, created_step, is_generated_slug, redirect_step, StateView, SLUG_SPACE};
use crate::{ShortLink, ShortenerError, Slug, Url};

verus! {

/// Trait for command handlers.
///
/// Every command validates against the current state, appends an event,
/// updates the read-state, and returns the resulting [`ShortLink`]; a
/// rejected command returns its error and leaves the state untouched.
pub trait CommandHandler: Sized {
    /// The observable state the contracts speak of.
    spec fn state(&self) -> StateView;

    /// The handler's invariant, established at construction and preserved
    /// by every command.
    spec fn wf(&self) -> bool;

    /// Creates a new short link. It accepts the original url and an
    /// optional [`Slug`]. If a [`Slug`] is not provided, the service
    /// generates one that is not yet in use. Returns the newly created
    /// [`ShortLink`].
    ///
    /// ## Errors
    ///
    /// Returns [`ShortenerError::SlugAlreadyInUse`] if the given slug is
    /// already mapped; a generated slug cannot collide. Generating one
    /// asks that the slug space is not exhausted, which a table fitting
    /// in memory never approaches.
    fn handle_create_short_link(&mut self, url: Url, slug: Option<Slug>) -> (r: Result<
        ShortLink,
        ShortenerError,
    >)
        requires
            old(self).wf(),
            slug is None ==> old(self).state().links.dom().len() < SLUG_SPACE,
        ensures
            final(self).wf(),
            slug matches Some(s) ==> ((old(self).state().links.contains_key(s@) ==> r == Err::<
                ShortLink,
                ShortenerError,
            >(ShortenerError::SlugAlreadyInUse) && final(self).state() == old(self).state()) && (
            !old(self).state().links.contains_key(s@) ==> (r matches Ok(l) && l.slug@ == s@
                && l.url@ == url@ && clicks_of(final(self).state(), s@) == 0 && created_step(
                old(self).state(),
                final(self).state(),
                s@,
                url@,
            )))),
            slug is None ==> (r matches Ok(l) && is_generated_slug(l.slug@) && !old(
                self,
            ).state().links.contains_key(l.slug@) && l.url@ == url@ && clicks_of(
                final(self).state(),
                l.slug@,
            ) == 0 && created_step(
                old(self).state(),
                final(self).state(),
                l.slug@,
                url@,
            )),
    ;

    /// Processes a redirection by [`Slug`], returning the associated
    /// [`ShortLink`] or a [`ShortenerError`].
    ///
    /// ## Errors
    ///
    /// Returns [`ShortenerError::SlugNotFound`] if the slug is not mapped;
    /// the failed call changes nothing, not even the click counters.
    fn handle_redirect(&mut self, slug: Slug) -> (r: Result<ShortLink, ShortenerError>)
        requires
            old(self).wf(),
        ensures
            final(self).wf(),
            !old(self).state().links.contains_key(slug@) ==> r == Err::<ShortLink, ShortenerError>(
                ShortenerError::SlugNotFound,
            ) && final(self).state() == old(self).state(),
            old(self).state().links.contains_key(slug@) ==> (r matches Ok(l) && l.slug@ == slug@
                && l.url@ == old(self).state().links[slug@] && redirect_step(
                old(self).state(),
                final(self).state(),
                slug@,
            )),
    ;

    /// Updates the [`Url`] of an existing [`ShortLink`] using a provided
    /// [`Slug`]. The slug's click count is untouched.
    ///
    /// ## Errors
    ///
    /// Returns [`ShortenerError::SlugNotFound`] if the provided slug does
    /// not map to any existing short link; the failed call changes nothing.
    fn handle_change_short_link(&mut self, slug: Slug, new_url: Url) -> (r: Result<
        ShortLink,
        ShortenerError,
    >)
        requires
            old(self).wf(),
        ensures
            final(self).wf(),
            !old(self).state().links.contains_key(slug@) ==> r == Err::<ShortLink, ShortenerError>(
                ShortenerError::SlugNotFound,
            ) && final(self).state() == old(self).state(),
            old(self).state().links.contains_key(slug@) ==> (r matches Ok(l) && l.slug@ == slug@
                && l.url@ == new_url@ && created_step(
                old(self).state(),
                final(self).state(),
                slug@,
                new_url@,
            )),
            clicks_of(final(self).state(), slug@) == clicks_of(old(self).state(), slug@),
    ;
}

} // verus!
