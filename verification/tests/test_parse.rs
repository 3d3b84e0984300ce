use crunchyroll_rs::error::CrunchyrollError;
use crunchyroll_rs::parse::UrlType;
use crunchyroll_rs::Crunchyroll;

#[test]
fn series_url_classifies_with_id() {
    let parsed =
        Crunchyroll::parse_url("https://www.crunchyroll.com/series/GY8VEQ95Y/darling-in-the-franxx")
            .unwrap();
    match parsed {
        UrlType::Series(id) => assert_eq!(id, "GY8VEQ95Y"),
        _ => panic!("a series url must classify as a series"),
    }
}

#[test]
fn series_url_without_trailing_segment() {
    let parsed = Crunchyroll::parse_url("https://www.crunchyroll.com/series/GY8VEQ95Y").unwrap();
    match parsed {
        UrlType::Series(id) => assert_eq!(id, "GY8VEQ95Y"),
        _ => panic!("a series url must classify as a series"),
    }
}

#[test]
fn movie_listing_url_classifies_with_id() {
    let parsed =
        Crunchyroll::parse_url("https://www.crunchyroll.com/movie_listing/GM8F313NQ/title")
            .unwrap();
    match parsed {
        UrlType::MovieListing(id) => assert_eq!(id, "GM8F313NQ"),
        _ => panic!("a movie listing url must classify as a movie listing"),
    }
}

#[test]
fn watch_url_classifies_as_episode_or_movie() {
    let parsed =
        Crunchyroll::parse_url("https://www.crunchyroll.com/watch/GRDQPM1ZY/alone-and-lonesome")
            .unwrap();
    match parsed {
        UrlType::EpisodeOrMovie(id) => assert_eq!(id, "GRDQPM1ZY"),
        _ => panic!("a watch url must classify as an episode or movie"),
    }
}

#[test]
fn unrelated_url_yields_classification_error() {
    match Crunchyroll::parse_url("https://example.com") {
        Err(CrunchyrollError::Classification(ctx)) => {
            assert_eq!(ctx.message, "invalid url: 'https://example.com'");
        }
        _ => panic!("an unrelated url must yield a classification error"),
    }
}

#[test]
fn empty_input_yields_classification_error() {
    assert!(Crunchyroll::parse_url("").is_err());
}

#[test]
fn series_url_with_empty_id_does_not_match() {
    assert!(Crunchyroll::parse_url("https://www.crunchyroll.com/series/").is_err());
    assert!(Crunchyroll::parse_url("https://www.crunchyroll.com/series//slug").is_err());
}

#[test]
fn marker_must_be_its_own_segment() {
    assert!(Crunchyroll::parse_url("https://example.com/miniseries/ABC").is_err());
    assert!(Crunchyroll::parse_url("https://example.com/serieses/ABC").is_err());
}
