//! Queries for CQRS.

use vstd::prelude::*;

use crate::model::{clicks_of, StateView};
use crate::{ShortenerError, Slug, Stats};

verus! {

/// Trait for query handlers.
pub trait QueryHandler: Sized {
    /// The observable state the contracts speak of.
    spec fn state(&self) -> StateView;

    /// The handler's invariant; queries rely on it and change nothing.
    spec fn wf(&self) -> bool;

    /// Returns the [`Stats`] for a specific [`crate::ShortLink`]: the
    /// link's current URL paired with its number of redirects (clicks),
    /// zero if it has never been redirected. Pure read: no event is
    /// emitted and no state changes.
    ///
    /// ## Errors
    ///
    /// Returns [`ShortenerError::SlugNotFound`] if the slug is not mapped.
    fn get_stats(&self, slug: Slug) -> (r: Result<Stats, ShortenerError>)
        requires
            self.wf(),
        ensures
            !self.state().links.contains_key(slug@) ==> r == Err::<Stats, ShortenerError>(
                ShortenerError::SlugNotFound,
            ),
            self.state().links.contains_key(slug@) ==> (r matches Ok(st) && st.link.slug@ == slug@
                && st.link.url@ == self.state().links[slug@] && st.redirects == clicks_of(
                self.state(),
                slug@,
            )),
    ;
}

} // verus!
