use vstd::prelude::*;
use vstd::string::StringExecFns;
use crate::common::{Available, FromId, HttpRequest, Image, Request};
use crate::{Crunchyroll, Executor};

verus! {

/// The image sets the api returns for a movie collection or a series.
pub struct MovieListingImages {
    pub poster_tall: Vec<Vec<Image>>,
    pub poster_wide: Vec<Vec<Image>>,
}

/// This struct represents a movie collection.
pub struct MovieListing {
    pub executor: Executor,

    pub id: String,
    pub channel_id: String,

    pub slug: String,
    pub title: String,
    pub slug_title: String,
    pub description: String,

    pub movie_release_year: u32,
    pub content_provider: String,

    pub keywords: Vec<String>,
    pub season_tags: Vec<String>,

    pub images: MovieListingImages,

    pub is_subbed: bool,
    pub is_dubbed: bool,
    pub subtitle_locales: Vec<String>,

    pub hd_flag: bool,
    pub is_premium_only: bool,

    pub maturity_ratings: Vec<String>,
    pub is_mature: bool,
    pub mature_blocked: bool,

    /// Seconds since the unix epoch; the boundary converts the wire's
    /// timestamp format to and from this plain representation.
    pub free_available_date: i64,
    /// Seconds since the unix epoch, converted at the boundary as well.
    pub premium_available_date: i64,

    pub available_offline: bool,
    pub availability_notes: String,
}

impl Request for MovieListing {
    open spec fn executor_of(&self) -> Option<Executor> {
        Some(self.executor)
    }

    open spec fn obs_eq(&self, other: &Self) -> bool {
        *self == *other
    }

    open spec fn set_exec_spec(&self, e: Executor, result: &Self) -> bool {
        *result == (MovieListing { executor: e, ..*self })
    }

    proof fn lemma_set_exec_idempotent(&self, mid: &Self, fin: &Self, e: Executor) {
    }

    fn __set_executor(&mut self, executor: &Executor) {
        self.executor = executor.clone();
    }

    fn __get_executor(&self) -> (r: Option<Executor>) {
        Some(self.executor.clone())
    }
}

impl Available for MovieListing {
    open spec fn available_spec(&self) -> bool {
        !self.is_premium_only || self.executor.config.premium
    }

    fn available(&self) -> (r: bool) {
        !self.is_premium_only || self.executor.config.premium
    }
}

impl FromId for MovieListing {
    open spec fn endpoint_spec(bucket: Seq<char>, id: Seq<char>) -> Seq<char> {
        "https://beta-api.crunchyroll.com/cms/v2/"@ + bucket + "/movie_listings/"@ + id
    }

    fn from_id_request(crunchy: &Crunchyroll, id: &str) -> (r: HttpRequest) {
        let mut url = String::from_str("https://beta-api.crunchyroll.com/cms/v2/");
        url.append(crunchy.executor.config.bucket.as_str());
        url.append("/movie_listings/");
        url.append(id);
        HttpRequest { url, params: crunchy.executor.media_query() }
    }
}

pub type SeriesImages = MovieListingImages;

/// This struct represents a crunchyroll series.
pub struct Series {
    pub executor: Executor,

    pub id: String,
    pub channel_id: String,

    pub slug: String,
    pub title: String,
    pub slug_title: String,
    pub description: String,

    pub series_launch_year: u32,
    pub content_provider: String,

    pub episode_count: u32,
    pub season_count: u32,
    pub media_count: u32,

    pub keywords: Vec<String>,
    pub season_tags: Vec<String>,

    pub images: SeriesImages,

    pub is_subbed: bool,
    pub is_dubbed: bool,
    pub is_simulcast: bool,
    pub audio_locales: Vec<String>,
    pub subtitle_locales: Vec<String>,

    pub maturity_ratings: Vec<String>,
    pub is_mature: bool,
    pub mature_blocked: bool,

    pub availability_notes: String,
}

impl Request for Series {
    open spec fn executor_of(&self) -> Option<Executor> {
        Some(self.executor)
    }

    open spec fn obs_eq(&self, other: &Self) -> bool {
        *self == *other
    }

    open spec fn set_exec_spec(&self, e: Executor, result: &Self) -> bool {
        *result == (Series { executor: e, ..*self })
    }

    proof fn lemma_set_exec_idempotent(&self, mid: &Self, fin: &Self, e: Executor) {
    }

    fn __set_executor(&mut self, executor: &Executor) {
        self.executor = executor.clone();
    }

    fn __get_executor(&self) -> (r: Option<Executor>) {
        Some(self.executor.clone())
    }
}

impl Available for Series {
    open spec fn available_spec(&self) -> bool {
        self.channel_id@.len() == 0 || self.executor.config.premium
    }

    fn available(&self) -> (r: bool) {
        self.channel_id.as_str().is_empty() || self.executor.config.premium
    }
}

impl FromId for Series {
    open spec fn endpoint_spec(bucket: Seq<char>, id: Seq<char>) -> Seq<char> {
        "https://beta-api.crunchyroll.com/cms/v2/"@ + bucket + "/series/"@ + id
    }

    fn from_id_request(crunchy: &Crunchyroll, id: &str) -> (r: HttpRequest) {
        let mut url = String::from_str("https://beta-api.crunchyroll.com/cms/v2/");
        url.append(crunchy.executor.config.bucket.as_str());
        url.append("/series/");
        url.append(id);
        HttpRequest { url, params: crunchy.executor.media_query() }
    }
}

} // verus!
