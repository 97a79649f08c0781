//! An in-memory URL-shortening service in the CQRS style: commands
//! (create a link, redirect, change a link's URL) validate against the
//! current read-state, append a domain event, and update the read-state;
//! the query side reads aggregated statistics for a slug.

use vstd::prelude::*;

pub mod commands;
pub mod laws;
mod fallback;
pub mod model;
pub mod queries;
mod random;
mod table;

use crate::model::{EventView, StateView};

verus! {

/// All possible errors of the [`UrlShortenerService`].
#[derive(Debug, PartialEq, Eq)]
pub enum ShortenerError {
    /// An invalid [`Url`] was provided for shortening. No URL validation is
    /// performed in this design, so no operation currently returns it; the
    /// kind is kept for interface compatibility.
    InvalidUrl,
    /// An attempt was made to use a slug (custom alias) that already exists.
    SlugAlreadyInUse,
    /// The provided [`Slug`] does not map to any existing short link.
    SlugNotFound,
}

/// A unique string (or alias) that represents the shortened version of the
/// URL.
#[derive(Debug, PartialEq, Eq, Hash)]
pub struct Slug(pub String);

/// The original URL that the short link points to.
#[derive(Debug, PartialEq)]
pub struct Url(pub String);

impl View for Slug {
    type V = Seq<char>;

    open spec fn view(&self) -> Seq<char> {
        self.0@
    }
}

impl Clone for Slug {
    fn clone(&self) -> (r: Self)
        ensures
            r == *self,
    {
        Slug(self.0.clone())
    }
}

impl View for Url {
    type V = Seq<char>;

    open spec fn view(&self) -> Seq<char> {
        self.0@
    }
}

impl Clone for Url {
    fn clone(&self) -> (r: Self)
        ensures
            r == *self,
    {
        Url(self.0.clone())
    }
}

/// Shortened URL representation.
#[derive(Debug, Clone, PartialEq)]
pub struct ShortLink {
    /// A unique string (or alias) that represents the shortened version of
    /// the URL.
    pub slug: Slug,
    /// The original URL that the short link points to.
    pub url: Url,
}

/// Statistics of the [`ShortLink`].
#[derive(Debug, Clone, PartialEq)]
pub struct Stats {
    /// [`ShortLink`] to which this [`Stats`] are related.
    pub link: ShortLink,
    /// Count of redirects of the [`ShortLink`].
    pub redirects: u64,
}

/// A record of one state change, appended to the log and never removed.
enum Event {
    /// A new short link was created, or an existing one had its URL
    /// reassigned.
    LinkCreated { slug: Slug, url: Url },
    /// A redirect occurred for the short link.
    LinkRedirected { slug: Slug },
}

spec fn event_view(e: Event) -> EventView {
    match e {
        Event::LinkCreated { slug, url } => EventView::Created { slug: slug@, url: url@ },
        Event::LinkRedirected { slug } => EventView::Redirected { slug: slug@ },
    }
}

spec fn events_view(s: Seq<Event>) -> Seq<EventView> {
    s.map(|i: int, e: Event| event_view(e))
}

proof fn lemma_events_view_push(s: Seq<Event>, e: Event)
    ensures
        events_view(s.push(e)) == events_view(s).push(event_view(e)),
{
    assert(events_view(s.push(e)) =~= events_view(s).push(event_view(e)));
}

/// CQRS and Event Sourcing-based service implementation.
pub struct UrlShortenerService {
    events: Vec<Event>,
    links: table::Table<Url>,
    click_counts: table::Table<u64>,
}

impl UrlShortenerService {
    /// The observable state: link table, click counters, and event log.
    pub closed spec fn state_view(&self) -> StateView {
        StateView { links: self.links@, clicks: self.click_counts@, events: events_view(self.events@) }
    }

    /// The representation invariant: the tables hold each key once; only a
    /// mapped slug has a click counter (so a slug new to the link table
    /// starts at zero); and no counter exceeds the number of logged events
    /// (each click is witnessed by one event, so a counter can always grow
    /// by one).
    pub closed spec fn well_formed(&self) -> bool {
        &&& self.links.wf()
        &&& self.click_counts.wf()
        &&& forall|k: Seq<char>| #[trigger] self.click_counts@.contains_key(k)
            ==> self.links@.contains_key(k)
        &&& forall|k: Seq<char>| self.click_counts@.contains_key(k)
            ==> #[trigger] self.click_counts@[k] <= self.events@.len()
    }

    /// Creates a new instance of the service.
    pub fn new() -> (s: Self)
        ensures
            s.well_formed(),
            s.state_view() == model::initial_state(),
    {
        let s = Self {
            events: Vec::new(),
            links: table::Table::new(),
            click_counts: table::Table::new(),
        };
        proof {
            assert(events_view(s.events@) =~= Seq::<EventView>::empty());
        }
        s
    }

    /// Draws a fresh candidate slug of eight alphanumeric characters.
    fn generate_random_slug() -> (s: Slug)
        ensures
            model::is_generated_slug(s@),
    {
        Slug(random::random_alphanumeric_string(model::SLUG_LENGTH))
    }

    /// Appends a `LinkCreated` event and inserts or overwrites the slug's
    /// entry in the link table.
    fn add_link_created_event(&mut self, slug: Slug, url: Url)
        requires
            old(self).well_formed(),
        ensures
            final(self).well_formed(),
            model::created_step(old(self).state_view(), final(self).state_view(), slug@, url@),
    {
        let ghost events0 = self.events@;
        self.events.push(Event::LinkCreated { slug: slug.clone(), url: url.clone() });
        proof {
            lemma_events_view_push(events0, Event::LinkCreated { slug, url });
        }
        self.links.insert(slug, url);
    }

    /// Appends a `LinkRedirected` event and increments the slug's click
    /// counter, initializing it to one if it was absent.
    fn add_link_redirected_event(&mut self, slug: &Slug)
        requires
            old(self).well_formed(),
            old(self).state_view().links.contains_key(slug@),
        ensures
            final(self).well_formed(),
            model::redirect_step(old(self).state_view(), final(self).state_view(), slug@),
    {
        let ghost events0 = self.events@;
        self.events.push(Event::LinkRedirected { slug: slug.clone() });
        proof {
            lemma_events_view_push(events0, Event::LinkRedirected { slug: *slug });
        }
        let logged = self.events.len();
        let current: u64 = match self.click_counts.get(slug) {
            Some(c) => *c,
            None => 0,
        };
        assert(current < logged <= u64::MAX);
        self.click_counts.insert(slug.clone(), current + 1);
    }

    /// The number of slugs currently mapped in the link table.
    pub fn links_count(&self) -> (n: usize)
        requires
            self.well_formed(),
        ensures
            n == self.state_view().links.dom().len(),
    {
        self.links.len()
    }

    /// Draws random candidate slugs until one misses the link table. A
    /// collision is astronomically unlikely, so a retry all but never
    /// happens; after a bounded number of draws the deterministic search
    /// takes over, which by pigeonhole always finds a fresh slug.
    fn fresh_generated_slug(&self) -> (s: Slug)
        requires
            self.well_formed(),
            self.state_view().links.dom().len() < model::SLUG_SPACE,
        ensures
            model::is_generated_slug(s@),
            !self.state_view().links.contains_key(s@),
    {
        let mut attempts: usize = 0;
        while attempts < 32
            invariant
                attempts <= 32,
            decreases 32 - attempts,
        {
            let generated_slug = Self::generate_random_slug();
            if !self.links.contains_key(&generated_slug) {
                return generated_slug;
            }
            attempts = attempts + 1;
        }
        fallback::fresh_fallback_slug(&self.links)
    }

    /// The click counter recorded for `slug`, or `None` if it has never
    /// been redirected.
    pub fn clicks_for(&self, slug: &Slug) -> (r: Option<u64>)
        requires
            self.well_formed(),
        ensures
            r == (if self.state_view().clicks.contains_key(slug@) {
                Some(self.state_view().clicks[slug@])
            } else {
                None::<u64>
            }),
    {
        match self.click_counts.get(slug) {
            Some(c) => Some(*c),
            None => None,
        }
    }
}

impl commands::CommandHandler for UrlShortenerService {
    open spec fn state(&self) -> StateView {
        self.state_view()
    }

    open spec fn wf(&self) -> bool {
        self.well_formed()
    }

    fn handle_create_short_link(&mut self, url: Url, slug: Option<Slug>) -> (r: Result<
        ShortLink,
        ShortenerError,
    >) {
        let chosen = match slug {
            Some(custom_slug) => {
                if self.links.contains_key(&custom_slug) {
                    return Err(ShortenerError::SlugAlreadyInUse);
                }
                custom_slug
            },
            None => self.fresh_generated_slug(),
        };
        self.add_link_created_event(chosen.clone(), url.clone());
        Ok(ShortLink { slug: chosen, url })
    }

    fn handle_redirect(&mut self, slug: Slug) -> (r: Result<ShortLink, ShortenerError>) {
        let url = match self.links.get(&slug) {
            Some(u) => u.clone(),
            None => {
                return Err(ShortenerError::SlugNotFound);
            },
        };
        self.add_link_redirected_event(&slug);
        Ok(ShortLink { slug, url })
    }

    fn handle_change_short_link(&mut self, slug: Slug, new_url: Url) -> (r: Result<
        ShortLink,
        ShortenerError,
    >) {
        if !self.links.contains_key(&slug) {
            return Err(ShortenerError::SlugNotFound);
        }
        self.add_link_created_event(slug.clone(), new_url.clone());
        Ok(ShortLink { slug, url: new_url })
    }
}

impl queries::QueryHandler for UrlShortenerService {
    open spec fn state(&self) -> StateView {
        self.state_view()
    }

    open spec fn wf(&self) -> bool {
        self.well_formed()
    }

    fn get_stats(&self, slug: Slug) -> (r: Result<Stats, ShortenerError>) {
        let url = match self.links.get(&slug) {
            Some(u) => u.clone(),
            None => {
                return Err(ShortenerError::SlugNotFound);
            },
        };
        let redirects: u64 = match self.click_counts.get(&slug) {
            Some(c) => *c,
            None => 0,
        };
        Ok(Stats { link: ShortLink { slug, url }, redirects })
    }
}

} // verus!
