use vstd::prelude::*;
use vstd::string::StringExecFns;
use crate::common::{BulkResult, Collection, HttpRequest, Request};
use crate::error::{CrunchyrollError, CrunchyrollErrorContext};
use crate::{Crunchyroll, Executor};

verus! {

/// The intermediate tagged bucket a polymorphic search payload is decoded
/// into first: a group of items sharing one discriminator. Buckets are
/// consumed during redistribution and never reach the caller.
pub struct QueryBulkResult {
    pub result_type: String,
    pub items: Vec<Collection>,
    pub total: u32,
}

impl Request for QueryBulkResult {
    open spec fn executor_of(&self) -> Option<Executor> {
        None
    }

    open spec fn obs_eq(&self, other: &Self) -> bool {
        &&& self.result_type == other.result_type
        &&& self.total == other.total
        &&& self.items@.len() == other.items@.len()
        &&& forall|i: int|
            0 <= i < self.items@.len() ==> self.items@[i].obs_eq(&other.items@[i])
    }

    open spec fn set_exec_spec(&self, e: Executor, result: &Self) -> bool {
        &&& result.result_type == self.result_type
        &&& result.total == self.total
        &&& result.items@.len() == self.items@.len()
        &&& forall|i: int|
            0 <= i < self.items@.len() ==> self.items@[i].set_exec_spec(e, &result.items@[i])
    }

    proof fn lemma_set_exec_idempotent(&self, mid: &Self, fin: &Self, e: Executor) {
        assert forall|i: int|
            0 <= i < fin.items@.len() implies fin.items@[i].obs_eq(&mid.items@[i]) by {
            assert(self.items@[i].set_exec_spec(e, &mid.items@[i]));
            assert(mid.items@[i].set_exec_spec(e, &fin.items@[i]));
            self.items@[i].lemma_set_exec_idempotent(&mid.items@[i], &fin.items@[i], e);
        }
    }

    fn __set_executor(&mut self, executor: &Executor) {
        let ghost orig = *self;
        let n = self.items.len();
        let mut i: usize = 0;
        while i < n
            invariant
                i <= n,
                n == self.items@.len(),
                self.items@.len() == orig.items@.len(),
                self.total == orig.total,
                self.result_type == orig.result_type,
                forall|j: int|
                    0 <= j < i ==> orig.items@[j].set_exec_spec(*executor, &self.items@[j]),
                forall|j: int| i <= j < n ==> self.items@[j] == orig.items@[j],
            decreases n - i,
        {
            self.items[i].__set_executor(executor);
            i = i + 1;
        }
    }

    fn __get_executor(&self) -> (r: Option<Executor>) {
        None
    }
}

/// The discriminators a search payload may carry; any other value aborts the
/// whole decode.
pub open spec fn known_result_type(t: Seq<char>) -> bool {
    ||| t == "top_results"@
    ||| t == "series"@
    ||| t == "movie_listing"@
    ||| t == "episode"@
}

/// Every bucket of the payload carries a known discriminator.
pub open spec fn all_known(buckets: Seq<QueryBulkResult>) -> bool {
    forall|i: int| 0 <= i < buckets.len() ==> known_result_type(buckets[i].result_type@)
}

/// The bucket at `i` is the first one whose discriminator is unknown.
pub open spec fn first_unknown(buckets: Seq<QueryBulkResult>, i: int) -> bool {
    &&& 0 <= i < buckets.len()
    &&& !known_result_type(buckets[i].result_type@)
    &&& forall|k: int| 0 <= k < i ==> known_result_type(buckets[k].result_type@)
}

/// The message a decode failure on an unknown discriminator carries: it names
/// the offending value verbatim.
pub open spec fn invalid_type_message(t: Seq<char>) -> Seq<char> {
    "invalid result type found: '"@ + t + "'"@
}

/// How one named slot relates to the part of the bucket sequence from `k` on:
/// it holds the last bucket tagged `name` there, or nothing if no bucket is.
/// With `k == 0` this is the slot's final state after redistribution.
pub open spec fn partial_slot(
    buckets: Seq<QueryBulkResult>,
    k: int,
    name: Seq<char>,
    slot: Option<BulkResult<Collection>>,
) -> bool {
    if exists|i: int| #![auto] k <= i < buckets.len() && buckets[i].result_type@ == name {
        exists|j: int|
            #![auto]
            {
                &&& k <= j < buckets.len()
                &&& buckets[j].result_type@ == name
                &&& forall|l: int| #![auto]
                    j < l < buckets.len() ==> buckets[l].result_type@ != name
                &&& slot matches Some(b) && b.items == buckets[j].items && b.total
                    == buckets[j].total
            }
    } else {
        slot is None
    }
}

/// The slot's final state after the whole bucket sequence was redistributed.
pub open spec fn slot_filled(
    buckets: Seq<QueryBulkResult>,
    name: Seq<char>,
    slot: Option<BulkResult<Collection>>,
) -> bool {
    partial_slot(buckets, 0, name, slot)
}

proof fn lemma_partial_slot_step(
    buckets: Seq<QueryBulkResult>,
    k: int,
    name: Seq<char>,
    old_slot: Option<BulkResult<Collection>>,
    new_slot: Option<BulkResult<Collection>>,
)
    requires
        0 <= k < buckets.len(),
        partial_slot(buckets, k + 1, name, old_slot),
        buckets[k].result_type@ == name ==> match old_slot {
            None => new_slot matches Some(b) && b.items == buckets[k].items && b.total
                == buckets[k].total,
            Some(_) => new_slot == old_slot,
        },
        buckets[k].result_type@ != name ==> new_slot == old_slot,
    ensures
        partial_slot(buckets, k, name, new_slot),
{
    let n = buckets.len() as int;
    if buckets[k].result_type@ == name {
        match old_slot {
            None => {
                assert forall|l: int| #![auto] k < l < n implies buckets[l].result_type@
                    != name by {
                    if buckets[l].result_type@ == name {
                        assert(exists|i: int| #![auto]
                            k + 1 <= i < n && buckets[i].result_type@ == name);
                    }
                }
                assert(exists|i: int| #![auto] k <= i < n && buckets[i].result_type@ == name);
            },
            Some(_) => {
                let j = choose|j: int|
                    #![auto]
                    {
                        &&& k + 1 <= j < n
                        &&& buckets[j].result_type@ == name
                        &&& forall|l: int| #![auto] j < l < n ==> buckets[l].result_type@ != name
                        &&& old_slot matches Some(b) && b.items == buckets[j].items && b.total
                            == buckets[j].total
                    };
                assert(exists|i: int| #![auto] k <= i < n && buckets[i].result_type@ == name);
            },
        }
    } else {
        if exists|i: int| #![auto] k <= i < n && buckets[i].result_type@ == name {
            let w = choose|i: int| #![auto] k <= i < n && buckets[i].result_type@ == name;
            assert(w != k);
            assert(exists|i: int| #![auto] k + 1 <= i < n && buckets[i].result_type@ == name);
            let j = choose|j: int|
                #![auto]
                {
                    &&& k + 1 <= j < n
                    &&& buckets[j].result_type@ == name
                    &&& forall|l: int| #![auto] j < l < n ==> buckets[l].result_type@ != name
                    &&& old_slot matches Some(b) && b.items == buckets[j].items && b.total
                        == buckets[j].total
                };
        }
    }
}

fn is_known_result_type(t: &String) -> (r: bool)
    ensures
        r == known_result_type(t@),
{
    *t == String::from_str("top_results") || *t == String::from_str("series") || *t
        == String::from_str("movie_listing") || *t == String::from_str("episode")
}

/// The typed result of a search: one optional bulk of hits for each known
/// discriminator, each present exactly when its discriminator appeared in the
/// payload.
pub struct QueryResults {
    pub executor: Executor,
    pub top_results: Option<BulkResult<Collection>>,
    pub series: Option<BulkResult<Collection>>,
    pub movie_listing: Option<BulkResult<Collection>>,
    pub episode: Option<BulkResult<Collection>>,
}

/// How one optional slot relates to its old value after the context `e` was
/// injected.
pub open spec fn opt_slot_set(
    before: Option<BulkResult<Collection>>,
    e: Executor,
    after: Option<BulkResult<Collection>>,
) -> bool {
    match before {
        Some(a) => after matches Some(b) && a.set_exec_spec(e, &b),
        None => after is None,
    }
}

/// Observable equality of two optional slots.
pub open spec fn opt_slot_obs_eq(
    a: Option<BulkResult<Collection>>,
    b: Option<BulkResult<Collection>>,
) -> bool {
    match a {
        Some(x) => b matches Some(y) && x.obs_eq(&y),
        None => b is None,
    }
}

proof fn lemma_opt_slot_idempotent(
    s: Option<BulkResult<Collection>>,
    m: Option<BulkResult<Collection>>,
    f: Option<BulkResult<Collection>>,
    e: Executor,
)
    requires
        opt_slot_set(s, e, m),
        opt_slot_set(m, e, f),
    ensures
        opt_slot_obs_eq(f, m),
{
    match (s, m, f) {
        (Some(a), Some(b), Some(c)) => {
            a.lemma_set_exec_idempotent(&b, &c, e);
        },
        _ => {},
    }
}

impl Request for QueryResults {
    open spec fn executor_of(&self) -> Option<Executor> {
        Some(self.executor)
    }

    open spec fn obs_eq(&self, other: &Self) -> bool {
        &&& self.executor == other.executor
        &&& opt_slot_obs_eq(self.top_results, other.top_results)
        &&& opt_slot_obs_eq(self.series, other.series)
        &&& opt_slot_obs_eq(self.movie_listing, other.movie_listing)
        &&& opt_slot_obs_eq(self.episode, other.episode)
    }

    open spec fn set_exec_spec(&self, e: Executor, result: &Self) -> bool {
        &&& result.executor == e
        &&& opt_slot_set(self.top_results, e, result.top_results)
        &&& opt_slot_set(self.series, e, result.series)
        &&& opt_slot_set(self.movie_listing, e, result.movie_listing)
        &&& opt_slot_set(self.episode, e, result.episode)
    }

    proof fn lemma_set_exec_idempotent(&self, mid: &Self, fin: &Self, e: Executor) {
        lemma_opt_slot_idempotent(self.top_results, mid.top_results, fin.top_results, e);
        lemma_opt_slot_idempotent(self.series, mid.series, fin.series, e);
        lemma_opt_slot_idempotent(self.movie_listing, mid.movie_listing, fin.movie_listing, e);
        lemma_opt_slot_idempotent(self.episode, mid.episode, fin.episode, e);
    }

    fn __set_executor(&mut self, executor: &Executor) {
        self.executor = executor.clone();
        match &mut self.top_results {
            Some(b) => b.__set_executor(executor),
            None => {},
        }
        match &mut self.series {
            Some(b) => b.__set_executor(executor),
            None => {},
        }
        match &mut self.movie_listing {
            Some(b) => b.__set_executor(executor),
            None => {},
        }
        match &mut self.episode {
            Some(b) => b.__set_executor(executor),
            None => {},
        }
    }

    fn __get_executor(&self) -> (r: Option<Executor>) {
        Some(self.executor.clone())
    }
}

impl QueryResults {
    /// Redistributes a decoded sequence of tagged buckets into the named
    /// slots. A bucket with a known discriminator moves into its slot, the
    /// last such bucket winning if the payload repeats a discriminator; a
    /// bucket with an unknown discriminator aborts the whole decode, naming
    /// the first offending value. The context of the result is left at its
    /// default until the post-decode hydration step injects the session's.
    pub fn try_from(value: BulkResult<QueryBulkResult>) -> (r: Result<
        QueryResults,
        CrunchyrollError,
    >)
        ensures
            r is Ok <==> all_known(value.items@),
            r matches Ok(q) ==> {
                &&& q.executor.is_default()
                &&& slot_filled(value.items@, "top_results"@, q.top_results)
                &&& slot_filled(value.items@, "series"@, q.series)
                &&& slot_filled(value.items@, "movie_listing"@, q.movie_listing)
                &&& slot_filled(value.items@, "episode"@, q.episode)
            },
            r matches Err(e) ==> exists|i: int|
                #![auto]
                {
                    &&& first_unknown(value.items@, i)
                    &&& e matches CrunchyrollError::Decode(ctx) && ctx.message@
                        == invalid_type_message(value.items@[i].result_type@)
                },
    {
        let mut items = value.items;
        let ghost orig = items@;
        let n = items.len();
        let mut i: usize = 0;
        while i < n
            invariant
                i <= n,
                n == items@.len(),
                items@ == orig,
                orig == value.items@,
                forall|k: int| 0 <= k < i ==> known_result_type(orig[k].result_type@),
            decreases n - i,
        {
            let item = &items[i];
            if !is_known_result_type(&item.result_type) {
                let mut message = String::from_str("invalid result type found: '");
                message.append(item.result_type.as_str());
                message.append("'");
                proof {
                    assert(first_unknown(orig, i as int));
                    assert(message@ == invalid_type_message(orig[i as int].result_type@));
                }
                return Err(
                    CrunchyrollError::Decode(CrunchyrollErrorContext { message }),
                );
            }
            i = i + 1;
        }

        let top_results_tag = String::from_str("top_results");
        let series_tag = String::from_str("series");
        let movie_listing_tag = String::from_str("movie_listing");
        let episode_tag = String::from_str("episode");

        let mut top_results: Option<BulkResult<Collection>> = None;
        let mut series: Option<BulkResult<Collection>> = None;
        let mut movie_listing: Option<BulkResult<Collection>> = None;
        let mut episode: Option<BulkResult<Collection>> = None;

        proof {
            reveal_strlit("top_results");
            reveal_strlit("series");
            reveal_strlit("movie_listing");
            reveal_strlit("episode");
        }

        while items.len() > 0
            invariant
                orig == value.items@,
                items@.len() <= orig.len(),
                items@ == orig.subrange(0, items@.len() as int),
                all_known(orig),
                top_results_tag@ == "top_results"@,
                series_tag@ == "series"@,
                movie_listing_tag@ == "movie_listing"@,
                episode_tag@ == "episode"@,
                partial_slot(orig, items@.len() as int, "top_results"@, top_results),
                partial_slot(orig, items@.len() as int, "series"@, series),
                partial_slot(orig, items@.len() as int, "movie_listing"@, movie_listing),
                partial_slot(orig, items@.len() as int, "episode"@, episode),
            decreases items@.len(),
        {
            let ghost old_top = top_results;
            let ghost old_series = series;
            let ghost old_movie = movie_listing;
            let ghost old_episode = episode;
            let item = items.pop().unwrap();
            let ghost k = items@.len() as int;
            proof {
                reveal_strlit("top_results");
                reveal_strlit("series");
                reveal_strlit("movie_listing");
                reveal_strlit("episode");
                assert(item == orig[k]);
                assert(items@ =~= orig.subrange(0, k));
                assert("top_results"@.len() == 11 && "series"@.len() == 6 && "movie_listing"@.len()
                    == 13 && "episode"@.len() == 7);
                assert("top_results"@ != "series"@ && "top_results"@ != "movie_listing"@
                    && "top_results"@ != "episode"@ && "series"@ != "movie_listing"@ && "series"@
                    != "episode"@ && "movie_listing"@ != "episode"@);
            }
            if item.result_type == top_results_tag {
                if top_results.is_none() {
                    top_results = Some(BulkResult { items: item.items, total: item.total });
                }
            } else if item.result_type == series_tag {
                if series.is_none() {
                    series = Some(BulkResult { items: item.items, total: item.total });
                }
            } else if item.result_type == movie_listing_tag {
                if movie_listing.is_none() {
                    movie_listing = Some(BulkResult { items: item.items, total: item.total });
                }
            } else if item.result_type == episode_tag {
                if episode.is_none() {
                    episode = Some(BulkResult { items: item.items, total: item.total });
                }
            } else {
                proof {
                    assert(known_result_type(orig[k].result_type@));
                    assert(false);
                }
            }
            proof {
                lemma_partial_slot_step(orig, k, "top_results"@, old_top, top_results);
                lemma_partial_slot_step(orig, k, "series"@, old_series, series);
                lemma_partial_slot_step(orig, k, "movie_listing"@, old_movie, movie_listing);
                lemma_partial_slot_step(orig, k, "episode"@, old_episode, episode);
            }
        }

        Ok(
            QueryResults {
                executor: Executor::default(),
                top_results,
                series,
                movie_listing,
                episode,
            },
        )
    }
}

/// The kinds of results a search can be restricted to.
#[derive(Clone, Copy, Debug)]
pub enum QueryType {
    Series,
    MovieListing,
    Episode,
}

impl QueryType {
    /// The discriminator value the api expects for this kind.
    pub open spec fn spec_value(&self) -> Seq<char> {
        match self {
            QueryType::Series => "series"@,
            QueryType::MovieListing => "movie_listing"@,
            QueryType::Episode => "episode"@,
        }
    }

    /// The wire form of the kind, sent as the `type` query parameter.
    pub fn value(&self) -> (r: &'static str)
        ensures
            r@ == self.spec_value(),
    {
        match self {
            QueryType::Series => "series",
            QueryType::MovieListing => "movie_listing",
            QueryType::Episode => "episode",
        }
    }
}

/// Optional restrictions of a search: how many results to fetch per
/// discriminator and which kind of results to fetch at all.
pub struct QueryOptions {
    pub limit: Option<u32>,
    pub result_type: Option<QueryType>,
}

impl Default for QueryOptions {
    fn default() -> (r: Self)
        ensures
            r.limit == Some(20u32),
            r.result_type is None,
    {
        QueryOptions { limit: Some(20), result_type: None }
    }
}

impl QueryOptions {
    /// Restricts how many results the search fetches per discriminator.
    pub fn limit(self, limit: u32) -> (r: Self)
        ensures
            r.limit == Some(limit),
            r.result_type == self.result_type,
    {
        QueryOptions { limit: Some(limit), ..self }
    }

    /// Restricts the search to one kind of results.
    pub fn result_type(self, result_type: QueryType) -> (r: Self)
        ensures
            r.result_type == Some(result_type),
            r.limit == self.limit,
    {
        QueryOptions { result_type: Some(result_type), ..self }
    }
}

/// How many query parameters a search request carries under the given
/// options.
pub open spec fn search_params_len(options: QueryOptions) -> int {
    2 + (if options.limit is Some {
        1int
    } else {
        0int
    }) + (if options.result_type is Some {
        1int
    } else {
        0int
    })
}

impl Crunchyroll {
    /// Builds the prepared search request for a query string: the fixed
    /// search endpoint, the query and the session's locale, followed by the
    /// limit (as `n`) and the result kind (as `type`) where the options set
    /// them. The transport layer outside the core sends it; the response
    /// payload is decoded through [`QueryResults::try_from`] and then
    /// hydrated.
    pub fn query_request(&self, query: &str, options: &QueryOptions) -> (r: HttpRequest)
        ensures
            r.url@ == "https://beta.crunchyroll.com/content/v1/search"@,
            r.params@.len() == search_params_len(*options),
            r.params@[0].0@ == "q"@ && r.params@[0].1@ == query@,
            r.params@[1].0@ == "locale"@ && r.params@[1].1@ == self.executor.locale@,
            options.limit matches Some(n) ==> r.params@[2].0@ == "n"@ && r.params@[2].1@
                == crate::common::spec_u32_string(n as nat),
            options.limit is Some ==> (options.result_type matches Some(t) ==> r.params@[3].0@
                == "type"@ && r.params@[3].1@ == t.spec_value()),
            options.limit is None ==> (options.result_type matches Some(t) ==> r.params@[2].0@
                == "type"@ && r.params@[2].1@ == t.spec_value()),
    {
        let mut params: Vec<(String, String)> = Vec::new();
        params.push((String::from_str("q"), String::from_str(query)));
        params.push((String::from_str("locale"), self.executor.locale.clone()));
        match &options.limit {
            Some(n) => params.push((String::from_str("n"), crate::common::u32_to_string(*n))),
            None => {},
        }
        match &options.result_type {
            Some(t) => params.push((String::from_str("type"), String::from_str(t.value()))),
            None => {},
        }
        HttpRequest {
            url: String::from_str("https://beta.crunchyroll.com/content/v1/search"),
            params,
        }
    }
}

} // verus!
