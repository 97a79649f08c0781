use url_shortener::commands::CommandHandler;
use url_shortener::queries::QueryHandler;
use url_shortener::{ShortenerError, Slug, Url, UrlShortenerService};

#[test]
fn test_generated_slug_is_eight_alphanumeric_chars() {
    let mut service = UrlShortenerService::new();
    let url = Url("https://example.com/a".to_string());

    let link = service.handle_create_short_link(url, None).unwrap();
    assert_eq!(link.slug.0.len(), 8);
    assert!(link.slug.0.chars().all(|c| c.is_ascii_alphanumeric()));
}

#[test]
fn test_generated_slugs_avoid_existing_links() {
    let mut service = UrlShortenerService::new();
    let url = Url("https://example.com/a".to_string());

    let first = service.handle_create_short_link(url.clone(), None).unwrap();
    let second = service.handle_create_short_link(url, None).unwrap();
    assert_ne!(first.slug, second.slug);
    assert_eq!(service.links_count(), 2);
}

#[test]
fn test_duplicate_slug_failure_leaves_state_unchanged() {
    let mut service = UrlShortenerService::new();
    let url1 = Url("https://example.com/a".to_string());
    let url2 = Url("https://example.com/b".to_string());
    let slug = Slug("taken".to_string());

    service.handle_create_short_link(url1.clone(), Some(slug.clone())).unwrap();

    let result = service.handle_create_short_link(url2, Some(slug.clone()));
    assert!(matches!(result, Err(ShortenerError::SlugAlreadyInUse)));

    assert_eq!(service.links_count(), 1);
    let stats = service.get_stats(slug.clone()).unwrap();
    assert_eq!(stats.link.url, url1);
    assert_eq!(stats.redirects, 0);
    assert_eq!(service.clicks_for(&slug), None);
}

#[test]
fn test_redirect_count_equals_number_of_redirects() {
    let mut service = UrlShortenerService::new();
    let url = Url("https://example.com/a".to_string());
    let slug = Slug("s".to_string());

    service.handle_create_short_link(url, Some(slug.clone())).unwrap();
    service.handle_redirect(slug.clone()).unwrap();
    service.handle_redirect(slug.clone()).unwrap();
    service.handle_redirect(slug.clone()).unwrap();

    let stats = service.get_stats(slug).unwrap();
    assert_eq!(stats.redirects, 3);
}

#[test]
fn test_failed_redirect_never_mutates_click_counter() {
    let mut service = UrlShortenerService::new();
    let url = Url("https://example.com/a".to_string());
    let slug = Slug("s".to_string());
    let unknown = Slug("unknown".to_string());

    service.handle_create_short_link(url, Some(slug.clone())).unwrap();
    service.handle_redirect(slug.clone()).unwrap();

    let result = service.handle_redirect(unknown.clone());
    assert!(matches!(result, Err(ShortenerError::SlugNotFound)));

    assert_eq!(service.clicks_for(&slug), Some(1));
    assert_eq!(service.clicks_for(&unknown), None);
    assert_eq!(service.links_count(), 1);
}

#[test]
fn test_change_makes_only_new_url_observable() {
    let mut service = UrlShortenerService::new();
    let url1 = Url("u1".to_string());
    let url2 = Url("u2".to_string());
    let slug = Slug("s".to_string());

    service.handle_create_short_link(url1, Some(slug.clone())).unwrap();
    service.handle_change_short_link(slug.clone(), url2.clone()).unwrap();

    let stats = service.get_stats(slug.clone()).unwrap();
    assert_eq!(stats.link.url, url2);

    let redirected = service.handle_redirect(slug).unwrap();
    assert_eq!(redirected.url, url2);
}

#[test]
fn test_change_preserves_click_count() {
    let mut service = UrlShortenerService::new();
    let url1 = Url("u1".to_string());
    let url2 = Url("u2".to_string());
    let slug = Slug("s".to_string());

    service.handle_create_short_link(url1, Some(slug.clone())).unwrap();
    service.handle_redirect(slug.clone()).unwrap();
    service.handle_change_short_link(slug.clone(), url2).unwrap();

    let stats = service.get_stats(slug).unwrap();
    assert_eq!(stats.redirects, 1);
}

#[test]
fn test_not_found_consistency_across_operations() {
    let mut service = UrlShortenerService::new();
    let never_created = Slug("never_created".to_string());
    let url = Url("u".to_string());

    let redirect = service.handle_redirect(never_created.clone());
    assert!(matches!(redirect, Err(ShortenerError::SlugNotFound)));

    let change = service.handle_change_short_link(never_created.clone(), url);
    assert!(matches!(change, Err(ShortenerError::SlugNotFound)));

    let stats = service.get_stats(never_created.clone());
    assert!(matches!(stats, Err(ShortenerError::SlugNotFound)));

    assert_eq!(service.links_count(), 0);
    assert_eq!(service.clicks_for(&never_created), None);
}

#[test]
fn test_urls_are_not_validated() {
    // The InvalidUrl error kind exists, but the reference behavior performs
    // no URL validation, so any string is accepted unchanged.
    let mut service = UrlShortenerService::new();
    let odd_url = Url("not a url at all".to_string());
    let slug = Slug("s".to_string());

    let link = service.handle_create_short_link(odd_url.clone(), Some(slug)).unwrap();
    assert_eq!(link.url, odd_url);
}

#[test]
fn test_create_overwrites_nothing_and_counts_start_at_zero() {
    let mut service = UrlShortenerService::new();
    let url = Url("https://example.com/a".to_string());
    let slug = Slug("fresh".to_string());

    service.handle_create_short_link(url.clone(), Some(slug.clone())).unwrap();

    let stats = service.get_stats(slug).unwrap();
    assert_eq!(stats.redirects, 0);
    assert_eq!(stats.link.url, url);
}
