use vstd::prelude::*;
use vstd::string::{StrSliceExecFns, StringExecFns};
use crate::error::{CrunchyrollError, CrunchyrollErrorContext};
use crate::Crunchyroll;

verus! {

/// What kind of entity a url references, together with the id extracted from
/// it. Purely derived from the url's path; holds no context reference.
#[derive(Debug)]
pub enum UrlType {
    Series(String),
    MovieListing(String),
    EpisodeOrMovie(String),
}

/// The classification of a url at the specification level: the kind and the
/// id as a character sequence, or no match at all.
pub enum UrlClass {
    Series(Seq<char>),
    MovieListing(Seq<char>),
    EpisodeOrMovie(Seq<char>),
    NoMatch,
}

/// The path segment `m` occurs in `s` starting at `i`, delimited by `/` on
/// both sides and followed by a nonempty id segment.
pub open spec fn marker_match(s: Seq<char>, i: int, m: Seq<char>) -> bool {
    &&& 1 <= i
    &&& i + m.len() + 1 < s.len()
    &&& s[i - 1] == '/'
    &&& s.subrange(i, i + m.len()) == m
    &&& s[i + m.len()] == '/'
    &&& s[i + m.len() + 1] != '/'
}

/// Where the id segment beginning at `j` ends: at the next `/`, or at the end
/// of the url.
pub open spec fn id_end(s: Seq<char>, j: int) -> int
    decreases s.len() - j,
{
    if j < 0 || j >= s.len() {
        j
    } else if s[j] == '/' {
        j
    } else {
        id_end(s, j + 1)
    }
}

/// The id segment following the marker `m` matched at `i`.
pub open spec fn id_at(s: Seq<char>, i: int, m: Seq<char>) -> Seq<char> {
    s.subrange(i + m.len() + 1, id_end(s, i + m.len() + 1))
}

/// Scans `s` from position `i` for the leftmost matching path pattern.
pub open spec fn classify_from(s: Seq<char>, i: int) -> UrlClass
    decreases s.len() - i,
{
    if i >= s.len() {
        UrlClass::NoMatch
    } else if marker_match(s, i, "series"@) {
        UrlClass::Series(id_at(s, i, "series"@))
    } else if marker_match(s, i, "movie_listing"@) {
        UrlClass::MovieListing(id_at(s, i, "movie_listing"@))
    } else if marker_match(s, i, "watch"@) {
        UrlClass::EpisodeOrMovie(id_at(s, i, "watch"@))
    } else {
        classify_from(s, i + 1)
    }
}

/// The classification of a whole url.
pub open spec fn classify(s: Seq<char>) -> UrlClass {
    classify_from(s, 1)
}

/// The returned value carries the kind and the id that the classification of
/// `s` names.
pub open spec fn class_matches(c: UrlClass, u: UrlType) -> bool {
    match (c, u) {
        (UrlClass::Series(v), UrlType::Series(id)) => id@ == v,
        (UrlClass::MovieListing(v), UrlType::MovieListing(id)) => id@ == v,
        (UrlClass::EpisodeOrMovie(v), UrlType::EpisodeOrMovie(id)) => id@ == v,
        _ => false,
    }
}

/// The message a failed classification carries: it names the url verbatim.
pub open spec fn invalid_url_message(s: Seq<char>) -> Seq<char> {
    "invalid url: '"@ + s + "'"@
}

fn marker_at(s: &str, n: usize, i: usize, m: &str) -> (r: bool)
    requires
        n == s@.len(),
        1 <= i < n,
    ensures
        r == marker_match(s@, i as int, m@),
{
    let mlen = m.unicode_len();
    if n - i < 2 {
        return false;
    }
    if mlen > n - i - 2 {
        return false;
    }
    if s.get_char(i - 1) != '/' {
        return false;
    }
    let mut j: usize = 0;
    while j < mlen
        invariant
            j <= mlen,
            mlen == m@.len(),
            n == s@.len(),
            1 <= i < n,
            i + mlen + 1 < n,
            forall|t: int| 0 <= t < j ==> s@[i + t] == m@[t],
        decreases mlen - j,
    {
        if s.get_char(i + j) != m.get_char(j) {
            proof {
                if s@.subrange(i as int, i + mlen as int) == m@ {
                    assert(s@.subrange(i as int, i + mlen as int)[j as int] == s@[i + j]);
                    assert(false);
                }
            }
            return false;
        }
        j = j + 1;
    }
    proof {
        assert(s@.subrange(i as int, i + mlen as int) =~= m@);
    }
    if s.get_char(i + mlen) != '/' {
        return false;
    }
    if s.get_char(i + mlen + 1) == '/' {
        return false;
    }
    true
}

fn find_id_end(s: &str, n: usize, start: usize) -> (j: usize)
    requires
        n == s@.len(),
        start <= n,
    ensures
        start <= j <= n,
        j == id_end(s@, start as int),
{
    let mut j = start;
    while j < n
        invariant
            start <= j <= n,
            n == s@.len(),
            id_end(s@, start as int) == id_end(s@, j as int),
        decreases n - j,
    {
        if s.get_char(j) == '/' {
            return j;
        }
        j = j + 1;
    }
    j
}

impl Crunchyroll {
    /// Classifies an arbitrary url against the known path patterns of the
    /// service (series pages, movie listing pages, episode / movie watch
    /// pages) and extracts the id the url references. Total over all inputs:
    /// a url matching none of the patterns yields a classification error that
    /// names the url, never a panic. No network call is made.
    pub fn parse_url(url: &str) -> (r: Result<UrlType, CrunchyrollError>)
        ensures
            r is Ok <==> !(classify(url@) is NoMatch),
            r matches Ok(u) ==> class_matches(classify(url@), u),
            r matches Err(e) ==> (e matches CrunchyrollError::Classification(ctx) && ctx.message@
                == invalid_url_message(url@)),
    {
        let n = url.unicode_len();
        let mut i: usize = 1;
        while i < n
            invariant
                n == url@.len(),
                1 <= i,
                classify(url@) == classify_from(url@, i as int),
            decreases n - i,
        {
            if marker_at(url, n, i, "series") {
                let mlen = "series".unicode_len();
                let start = i + mlen + 1;
                let end = find_id_end(url, n, start);
                let id = url.substring_char(start, end);
                return Ok(UrlType::Series(id.to_owned()));
            } else if marker_at(url, n, i, "movie_listing") {
                let mlen = "movie_listing".unicode_len();
                let start = i + mlen + 1;
                let end = find_id_end(url, n, start);
                let id = url.substring_char(start, end);
                return Ok(UrlType::MovieListing(id.to_owned()));
            } else if marker_at(url, n, i, "watch") {
                let mlen = "watch".unicode_len();
                let start = i + mlen + 1;
                let end = find_id_end(url, n, start);
                let id = url.substring_char(start, end);
                return Ok(UrlType::EpisodeOrMovie(id.to_owned()));
            }
            i = i + 1;
        }
        let mut message = String::from_str("invalid url: '");
        message.append(url);
        message.append("'");
        Err(CrunchyrollError::Classification(CrunchyrollErrorContext { message }))
    }
}

} // verus!
