use crunchyroll_rs::common::{u32_to_string, Available, FromId};
use crunchyroll_rs::media_collection::{MovieListing, MovieListingImages, Series, SeriesImages};
use crunchyroll_rs::search::{QueryOptions, QueryType};
use crunchyroll_rs::{Config, Crunchyroll, Executor};

fn ctx(bucket: &str, premium: bool, locale: &str) -> Executor {
    Executor {
        config: Config { bucket: bucket.to_string(), premium },
        locale: locale.to_string(),
    }
}

fn movie_listing(executor: Executor, premium_only: bool) -> MovieListing {
    MovieListing {
        executor,
        id: "M1".to_string(),
        channel_id: String::new(),
        slug: String::new(),
        title: String::new(),
        slug_title: String::new(),
        description: String::new(),
        movie_release_year: 0,
        content_provider: String::new(),
        keywords: vec![],
        season_tags: vec![],
        images: MovieListingImages { poster_tall: vec![], poster_wide: vec![] },
        is_subbed: false,
        is_dubbed: false,
        subtitle_locales: vec![],
        hd_flag: false,
        is_premium_only: premium_only,
        maturity_ratings: vec![],
        is_mature: false,
        mature_blocked: false,
        free_available_date: 0,
        premium_available_date: 0,
        available_offline: false,
        availability_notes: String::new(),
    }
}

fn series(executor: Executor, channel_id: &str) -> Series {
    Series {
        executor,
        id: "S1".to_string(),
        channel_id: channel_id.to_string(),
        slug: String::new(),
        title: String::new(),
        slug_title: String::new(),
        description: String::new(),
        series_launch_year: 0,
        content_provider: String::new(),
        episode_count: 0,
        season_count: 0,
        media_count: 0,
        keywords: vec![],
        season_tags: vec![],
        images: SeriesImages { poster_tall: vec![], poster_wide: vec![] },
        is_subbed: false,
        is_dubbed: false,
        is_simulcast: false,
        audio_locales: vec![],
        subtitle_locales: vec![],
        maturity_ratings: vec![],
        is_mature: false,
        mature_blocked: false,
        availability_notes: String::new(),
    }
}

#[test]
fn premium_only_follows_entitlement() {
    let without = movie_listing(ctx("b", false, "en-US"), true);
    assert!(!without.available());
    let with = movie_listing(ctx("b", true, "en-US"), true);
    assert!(with.available());
}

#[test]
fn free_movie_listing_always_available() {
    let free = movie_listing(ctx("b", false, "en-US"), false);
    assert!(free.available());
}

#[test]
fn series_availability_uses_channel() {
    assert!(series(ctx("b", false, "en-US"), "").available());
    assert!(!series(ctx("b", false, "en-US"), "premium-channel").available());
    assert!(series(ctx("b", true, "en-US"), "premium-channel").available());
}

#[test]
fn series_endpoint_is_exact() {
    let crunchy = Crunchyroll { executor: ctx("cellar_door", false, "en-US") };
    let request = Series::from_id_request(&crunchy, "GY8VEQ95Y");
    assert_eq!(
        request.url,
        "https://beta-api.crunchyroll.com/cms/v2/cellar_door/series/GY8VEQ95Y"
    );
    assert_eq!(request.params, vec![("locale".to_string(), "en-US".to_string())]);
}

#[test]
fn movie_listing_endpoint_is_exact() {
    let crunchy = Crunchyroll { executor: ctx("cellar_door", false, "de-DE") };
    let request = MovieListing::from_id_request(&crunchy, "GM8F313NQ");
    assert_eq!(
        request.url,
        "https://beta-api.crunchyroll.com/cms/v2/cellar_door/movie_listings/GM8F313NQ"
    );
    assert_eq!(request.params, vec![("locale".to_string(), "de-DE".to_string())]);
}

#[test]
fn decimal_rendering_is_exact() {
    assert_eq!(u32_to_string(0), "0");
    assert_eq!(u32_to_string(7), "7");
    assert_eq!(u32_to_string(20), "20");
    assert_eq!(u32_to_string(305), "305");
    assert_eq!(u32_to_string(u32::MAX), "4294967295");
}

#[test]
fn search_request_with_default_options() {
    let crunchy = Crunchyroll { executor: ctx("b", false, "en-US") };
    let request = crunchy.query_request("darling", &QueryOptions::default());
    assert_eq!(request.url, "https://beta.crunchyroll.com/content/v1/search");
    assert_eq!(
        request.params,
        vec![
            ("q".to_string(), "darling".to_string()),
            ("locale".to_string(), "en-US".to_string()),
            ("n".to_string(), "20".to_string()),
        ]
    );
}

#[test]
fn query_options_builders() {
    let options = QueryOptions::default().limit(5).result_type(QueryType::Series);
    assert_eq!(options.limit, Some(5));
    assert!(matches!(options.result_type, Some(QueryType::Series)));
    let crunchy = Crunchyroll { executor: ctx("b", false, "en-US") };
    let request = crunchy.query_request("x", &options);
    assert_eq!(request.params.len(), 4);
    assert_eq!(request.params[2], ("n".to_string(), "5".to_string()));
    assert_eq!(request.params[3], ("type".to_string(), "series".to_string()));
}

#[test]
fn search_request_with_type_restriction() {
    let crunchy = Crunchyroll { executor: ctx("b", false, "ja-JP") };
    let options = QueryOptions { limit: None, result_type: Some(QueryType::MovieListing) };
    let request = crunchy.query_request("ghost", &options);
    assert_eq!(
        request.params,
        vec![
            ("q".to_string(), "ghost".to_string()),
            ("locale".to_string(), "ja-JP".to_string()),
            ("type".to_string(), "movie_listing".to_string()),
        ]
    );
}
