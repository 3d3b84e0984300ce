use vstd::prelude::*;
use vstd::string::StringExecFns;
use crate::Executor;

verus! {

/// A prepared, not yet issued HTTP request: the endpoint url and the query
/// parameters, both fully determined by the session context and the caller's
/// arguments. The transport layer outside the core sends it.
pub struct HttpRequest {
    pub url: String,
    pub params: Vec<(String, String)>,
}

/// The standard representation of images how the api returns them.
pub struct Image {
    pub source: String,
    pub image_type: String,
    pub height: u32,
    pub width: u32,
}

/// The capability every decodable type implements. After a payload has been
/// decoded, the execution context is injected once into the whole object
/// graph through `__set_executor`; composite types forward it to every
/// contained value that implements [`Request`].
///
/// The two spec functions pin the behaviour down exactly: `set_exec_spec`
/// relates the value before the injection to the value after it, and
/// `executor_of` is what `__get_executor` reports. The law
/// `lemma_set_exec_idempotent`, proved by every implementation, states that
/// injecting the same context twice leaves the graph in the same observable
/// state as injecting it once.
pub trait Request: Sized {
    /// The context this value holds, if it stores one at all.
    spec fn executor_of(&self) -> Option<Executor>;

    /// Observable equality: equality of all data, where sequences of
    /// contained values are compared element by element.
    spec fn obs_eq(&self, other: &Self) -> bool;

    /// Exactly how `result` relates to `self` after the context `e` has been
    /// injected: every context slot in the graph holds `e`, everything else
    /// is unchanged.
    spec fn set_exec_spec(&self, e: Executor, result: &Self) -> bool;

    /// Injecting a context is idempotent: a second injection of the same
    /// context does not change the observable state.
    proof fn lemma_set_exec_idempotent(&self, mid: &Self, fin: &Self, e: Executor)
        requires
            self.set_exec_spec(e, mid),
            mid.set_exec_spec(e, fin),
        ensures
            fin.obs_eq(mid),
    ;

    /// Inject a usable [`Executor`] into the value and everything it contains.
    fn __set_executor(&mut self, executor: &Executor)
        ensures
            old(self).set_exec_spec(*executor, final(self)),
    ;

    /// The [`Executor`] instance of the value, if it stores one.
    fn __get_executor(&self) -> (r: Option<Executor>)
        ensures
            r == self.executor_of(),
    ;
}

impl Executor {
    /// The post-decode half of request execution: once the transport has
    /// returned a payload and it has been decoded, the context injects a copy
    /// of itself into the decoded object graph before the caller sees it.
    pub fn hydrate<T: Request>(&self, value: &mut T)
        ensures
            old(value).set_exec_spec(*self, final(value)),
    {
        value.__set_executor(self);
    }

    /// The query parameters every CMS media request carries.
    pub fn media_query(&self) -> (r: Vec<(String, String)>)
        ensures
            r@.len() == 1,
            r@[0].0@ == "locale"@,
            r@[0].1@ == self.locale@,
    {
        let mut params: Vec<(String, String)> = Vec::new();
        params.push((String::from_str("locale"), self.locale.clone()));
        params
    }
}

/// Contains a variable amount of items and the maximum / total of items which
/// are available. Mostly used when fetching pagination results: `items` may
/// hold fewer entries than `total` says exist on the service.
pub struct BulkResult<T: Request> {
    pub items: Vec<T>,
    pub total: u32,
}

impl<T: Request> Request for BulkResult<T> {
    open spec fn executor_of(&self) -> Option<Executor> {
        None
    }

    open spec fn obs_eq(&self, other: &Self) -> bool {
        &&& self.total == other.total
        &&& self.items@.len() == other.items@.len()
        &&& forall|i: int|
            0 <= i < self.items@.len() ==> self.items@[i].obs_eq(&other.items@[i])
    }

    open spec fn set_exec_spec(&self, e: Executor, result: &Self) -> bool {
        &&& result.total == self.total
        &&& result.items@.len() == self.items@.len()
        &&& forall|i: int|
            0 <= i < self.items@.len() ==> self.items@[i].set_exec_spec(e, &result.items@[i])
    }

    proof fn lemma_set_exec_idempotent(&self, mid: &Self, fin: &Self, e: Executor) {
        assert forall|i: int|
            0 <= i < fin.items@.len() implies fin.items@[i].obs_eq(&mid.items@[i]) by {
            assert(self.items@[i].set_exec_spec(e, &mid.items@[i]));
            assert(mid.items@[i].set_exec_spec(e, &fin.items@[i]));
            self.items@[i].lemma_set_exec_idempotent(&mid.items@[i], &fin.items@[i], e);
        }
    }

    fn __set_executor(&mut self, executor: &Executor) {
        let ghost orig = *self;
        let n = self.items.len();
        let mut i: usize = 0;
        while i < n
            invariant
                i <= n,
                n == self.items@.len(),
                self.items@.len() == orig.items@.len(),
                self.total == orig.total,
                forall|j: int|
                    0 <= j < i ==> orig.items@[j].set_exec_spec(*executor, &self.items@[j]),
                forall|j: int| i <= j < n ==> self.items@[j] == orig.items@[j],
            decreases n - i,
        {
            self.items[i].__set_executor(executor);
            i = i + 1;
        }
    }

    fn __get_executor(&self) -> (r: Option<Executor>) {
        None
    }
}

/// The record a single search hit is decoded into. It is one of the plain
/// per-entity data records; only its context slot matters to the core.
pub struct Collection {
    pub executor: Executor,
    pub id: String,
    pub slug_title: String,
    pub title: String,
    pub description: String,
}

impl Request for Collection {
    open spec fn executor_of(&self) -> Option<Executor> {
        Some(self.executor)
    }

    open spec fn obs_eq(&self, other: &Self) -> bool {
        *self == *other
    }

    open spec fn set_exec_spec(&self, e: Executor, result: &Self) -> bool {
        *result == (Collection { executor: e, ..*self })
    }

    proof fn lemma_set_exec_idempotent(&self, mid: &Self, fin: &Self, e: Executor) {
    }

    fn __set_executor(&mut self, executor: &Executor) {
        self.executor = executor.clone();
    }

    fn __get_executor(&self) -> (r: Option<Executor>) {
        Some(self.executor.clone())
    }
}

/// Check if further actions with the struct which implements this are
/// available under the caller's current entitlement. Evaluated at call time
/// from the entity's own fields and the context's premium flag, never cached.
pub trait Available: Request {
    /// What `available` returns, stated over the entity's fields and its
    /// stored context.
    spec fn available_spec(&self) -> bool;

    /// Returns if the current episode, series, ... is available.
    fn available(&self) -> (r: bool)
        ensures
            r == self.available_spec(),
    ;
}

/// Every instance of the struct which implements this can be addressed by an
/// id: the endpoint path for the id is built by template substitution from
/// the context's bucket, and the transport layer outside the core then issues
/// the prepared request.
pub trait FromId: Request {
    /// The endpoint path for a given bucket and id.
    spec fn endpoint_spec(bucket: Seq<char>, id: Seq<char>) -> Seq<char>;

    /// Builds the prepared request that fetches the entity with the given id:
    /// the endpoint path with the context's bucket and the id substituted in,
    /// and the standard media query parameters.
    fn from_id_request(crunchy: &crate::Crunchyroll, id: &str) -> (r: HttpRequest)
        ensures
            r.url@ == Self::endpoint_spec(crunchy.executor.config.bucket@, id@),
            r.params@.len() == 1,
            r.params@[0].0@ == "locale"@,
            r.params@[0].1@ == crunchy.executor.locale@,
    ;
}

/// The canonical decimal rendering of `n`, most significant digit first.
pub open spec fn spec_u32_string(n: nat) -> Seq<char>
    decreases n,
{
    if n < 10 {
        seq![spec_digit_char(n)]
    } else {
        spec_u32_string(n / 10).push(spec_digit_char(n % 10))
    }
}

/// The character for a single decimal digit.
pub open spec fn spec_digit_char(d: nat) -> char {
    if d == 0 {
        '0'
    } else if d == 1 {
        '1'
    } else if d == 2 {
        '2'
    } else if d == 3 {
        '3'
    } else if d == 4 {
        '4'
    } else if d == 5 {
        '5'
    } else if d == 6 {
        '6'
    } else if d == 7 {
        '7'
    } else if d == 8 {
        '8'
    } else {
        '9'
    }
}

fn digit_str(d: u32) -> (r: &'static str)
    requires
        d < 10,
    ensures
        r@ == seq![spec_digit_char(d as nat)],
{
    proof {
        reveal_strlit("0");
        reveal_strlit("1");
        reveal_strlit("2");
        reveal_strlit("3");
        reveal_strlit("4");
        reveal_strlit("5");
        reveal_strlit("6");
        reveal_strlit("7");
        reveal_strlit("8");
        reveal_strlit("9");
    }
    let r = if d == 0 {
        "0"
    } else if d == 1 {
        "1"
    } else if d == 2 {
        "2"
    } else if d == 3 {
        "3"
    } else if d == 4 {
        "4"
    } else if d == 5 {
        "5"
    } else if d == 6 {
        "6"
    } else if d == 7 {
        "7"
    } else if d == 8 {
        "8"
    } else {
        "9"
    };
    proof {
        assert(r@ =~= seq![spec_digit_char(d as nat)]);
    }
    r
}

/// Renders `n` in decimal, as query parameter values are sent on the wire.
pub fn u32_to_string(n: u32) -> (r: String)
    ensures
        r@ == spec_u32_string(n as nat),
    decreases n,
{
    if n < 10 {
        String::from_str(digit_str(n))
    } else {
        let mut s = u32_to_string(n / 10);
        s.append(digit_str(n % 10));
        proof {
            assert(spec_u32_string((n / 10) as nat).push(spec_digit_char((n % 10) as nat))
                =~= spec_u32_string((n / 10) as nat) + seq![spec_digit_char((n % 10) as nat)]);
        }
        s
    }
}

} // verus!
