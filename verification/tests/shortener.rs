use url_shortener::commands::CommandHandler;
use url_shortener::queries::QueryHandler;
use url_shortener::{ShortenerError, Slug, Url, UrlShortenerService};

#[test]
fn test_random_slug_generation_creates_unique_link() {
    let mut service = UrlShortenerService::new();
    let url = Url("https://www.amazon.com/Redragon-S101-Keyboard-Ergonomic-Programmable/dp/B00NLZUM36/ref=sr_1_1?_encoding=UTF8".to_string());

    let result = service.handle_create_short_link(url.clone(), None);
    assert!(result.is_ok());

    let short_link = result.unwrap();
    assert_eq!(short_link.url, url);
    assert_eq!(service.links_count(), 1);
}

#[test]
fn test_custom_slug_allows_exact_alias_creation() {
    let mut service = UrlShortenerService::new();
    let url = Url("https://www.amazon.com/Redragon-S101-Keyboard-Ergonomic-Programmable/dp/B00NLZUM36/ref=sr_1_1?_encoding=UTF8".to_string());
    let slug = Slug("my_slug".to_string());

    let result = service.handle_create_short_link(url.clone(), Some(slug.clone()));
    assert!(result.is_ok());

    let short_link = result.unwrap();
    assert_eq!(short_link.slug, slug);
    assert_eq!(short_link.url, url);
    assert_eq!(service.links_count(), 1);
}

#[test]
fn test_duplicate_slug_creation_should_fail() {
    let mut service = UrlShortenerService::new();
    let url1 = Url("https://www.amazon.com/Redragon-S101-Keyboard-Ergonomic-Programmable/dp/B00NLZUM36/ref=sr_1_1?_encoding=UTF8".to_string());
    let slug = Slug("my_slug".to_string());

    service.handle_create_short_link(url1.clone(), Some(slug.clone())).unwrap();

    let url2 = Url("https://www.amazon.com/Redragon-Keyboard-Wireless-Independent-Multimedia/dp/B0CTMMN857/ref=pd_ci_mcx_pspc_dp_2_i_2?pd_rd_w=J8fu0".to_string());
    let result = service.handle_create_short_link(url2, Some(slug));
    assert!(matches!(result, Err(ShortenerError::SlugAlreadyInUse)));
}

#[test]
fn test_redirect_increases_click_count_for_existing_slug() {
    let mut service = UrlShortenerService::new();
    let url = Url("https://www.amazon.com/Redragon-S101-Keyboard-Ergonomic-Programmable/dp/B00NLZUM36/ref=sr_1_1?_encoding=UTF".to_string());
    let slug = Slug("my_slug".to_string());

    service.handle_create_short_link(url.clone(), Some(slug.clone())).unwrap();

    let result = service.handle_redirect(slug.clone());
    assert!(result.is_ok());

    let short_link = result.unwrap();
    assert_eq!(short_link.url, url);
    assert_eq!(short_link.slug, slug);
    assert_eq!(service.clicks_for(&slug), Some(1));
}

#[test]
fn test_redirect_fails_for_nonexistent_slug() {
    let mut service = UrlShortenerService::new();
    let slug = Slug("slug_does_not_exist".to_string());

    let result = service.handle_redirect(slug);
    assert!(matches!(result, Err(ShortenerError::SlugNotFound)));
}

#[test]
fn test_stats_retrieval_reflects_actual_clicks_for_valid_slug() {
    let mut service = UrlShortenerService::new();
    let url = Url("https://www.amazon.com/Redragon-S101-Keyboard-Ergonomic-Programmable/dp/B00NLZUM36/ref=sr_1_1?_encoding=UTF".to_string());
    let slug = Slug("my_slug".to_string());

    service.handle_create_short_link(url.clone(), Some(slug.clone())).unwrap();
    service.handle_redirect(slug.clone()).unwrap();
    service.handle_redirect(slug.clone()).unwrap();

    let result = service.get_stats(slug.clone());
    assert!(result.is_ok());

    let stats = result.unwrap();
    assert_eq!(stats.link.url, url);
    assert_eq!(stats.redirects, 2);
}

#[test]
fn test_stats_retrieval_fails_gracefully_for_missing_slug() {
    let service = UrlShortenerService::new();
    let slug = Slug("slug_does_not_exist".to_string());

    let result = service.get_stats(slug);
    assert!(matches!(result, Err(ShortenerError::SlugNotFound)));
}

#[test]
fn test_change_short_link_success() {
    let mut service = UrlShortenerService::new();
    let original_url = Url("https://www.amazon.com/Redragon-S101-Keyboard-Ergonomic-Programmable/dp/B00NLZUM36/ref=sr_1_1?_encoding=UTF8".into());
    let new_url = Url("https://www.amazon.com/Redragon-Keyboard-Wireless-Independent-Multimedia/dp/B0CTMMN857/ref=pd_ci_mcx_pspc_dp_2_i_2?pd_rd_w=J8fu0".into());
    let slug = Slug("my_slug".into());

    // Create the initial short link
    service.handle_create_short_link(original_url.clone(), Some(slug.clone())).unwrap();

    // Change the short link's destination URL
    let result = service.handle_change_short_link(slug.clone(), new_url.clone());

    assert!(result.is_ok());
    let updated_short_link = result.unwrap();
    assert_eq!(updated_short_link.url, new_url);
    assert_eq!(updated_short_link.slug, slug);

    // Verify that the internal state reflects the change
    let stats = service.get_stats(slug.clone()).unwrap();
    assert_eq!(stats.link.url, new_url);
}

#[test]
fn test_change_short_link_slug_not_found() {
    let mut service = UrlShortenerService::new();
    let new_url = Url("https://www.amazon.com/Redragon-Keyboard-Wireless-Independent-Multimedia/dp/B0CTMMN857/ref=pd_ci_mcx_pspc_dp_2_i_2?pd_rd_w=J8fu0".into());
    let slug = Slug("slug_does_not_exist".into());

    // Attempt to change a non-existent short link
    let result = service.handle_change_short_link(slug.clone(), new_url.clone());

    assert!(result.is_err());
    assert_eq!(result.unwrap_err(), ShortenerError::SlugNotFound);
}
