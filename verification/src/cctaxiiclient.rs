//! The CloudCover TAXII client: credential/session context, query
//! construction, and the pagination engine for indicator retrieval.

use vstd::prelude::*;
use vstd::string::StringExecFns;
use crate::error::TaxiiError;

verus! {

/// One threat-intelligence indicator record. Timestamps are opaque strings;
/// the whole record is an immutable value once decoded.
#[derive(Debug, PartialEq)]
pub struct CCIndicator {
    pub created: String,
    pub description: String,
    pub id: String,
    pub modified: String,
    pub name: String,
    pub pattern: String,
    pub pattern_type: String,
    pub pattern_version: String,
    pub spec_version: String,
    /// The object-type discriminator (the wire field named `type`).
    pub object_type: String,
    pub valid_from: String,
}

/// One page of indicator records, with pagination metadata: whether the
/// server claims more data, and an opaque cursor for the next page.
#[derive(Debug)]
pub struct CCEnvelope {
    pub more: Option<bool>,
    pub next: Option<String>,
    pub objects: Vec<CCIndicator>,
}

/// The Base64 text that the standard encoding assigns to the UTF-8 bytes of
/// a character sequence.
pub uninterp spec fn base64_of(s: Seq<char>) -> Seq<char>;

/// Relies on base64::encode: the standard Base64 encoding of the input
/// bytes, a function of those bytes alone.
#[verifier::external_body]
fn base64_encode(s: &str) -> (r: String)
    ensures
        r@ == base64_of(s@),
{
    base64::encode(s.as_bytes())
}

/// The Basic-auth header value derived from a username and an API key:
/// `Basic` followed by the Base64 encoding of `username:api_key`.
pub open spec fn spec_basic_auth(username: Seq<char>, api_key: Seq<char>) -> Seq<char> {
    "Basic "@ + base64_of(username + ":"@ + api_key)
}

/// The credential/session context of the client: the fixed server base
/// address, the static request headers (content type, accept, and the
/// computed Basic-auth value), and the account name used for the private
/// root. Immutable after construction; the raw API key is never stored.
pub struct CCTaxiiClient {
    base_url: &'static str,
    common_headers: Vec<(&'static str, String)>,
    account: String,
}

impl CCTaxiiClient {
    /// The account name the client was constructed with.
    pub closed spec fn spec_account(&self) -> Seq<char> {
        self.account@
    }

    /// The fixed base address of the server.
    pub closed spec fn spec_base_url(&self) -> Seq<char> {
        self.base_url@
    }

    /// The static headers, as name/value character sequences.
    pub closed spec fn spec_headers(&self) -> Seq<(Seq<char>, Seq<char>)> {
        self.common_headers@.map_values(|h: (&'static str, String)| (h.0@, h.1@))
    }

    /// Builds a client for the given account: stores the account name, the
    /// fixed base address, and the three static headers, computing the
    /// Basic-auth value from `username:api_key` eagerly.
    pub fn new(username: &str, api_key: &str) -> (r: Self)
        ensures
            r.spec_account() == username@,
            r.spec_base_url() == "https://taxii2.cloudcover.net"@,
            r.spec_headers().len() == 3,
            r.spec_headers()[0] == ("Content-Type"@, "application/taxii+json;version=2.1"@),
            r.spec_headers()[1] == ("Accept"@, "application/taxii+json;version=2.1"@),
            r.spec_headers()[2] == ("Authorization"@, spec_basic_auth(username@, api_key@)),
    {
        let mut key = username.to_owned();
        key.append(":");
        key.append(api_key);
        let mut auth = "Basic ".to_owned();
        let encoded = base64_encode(key.as_str());
        auth.append(encoded.as_str());
        let mut headers: Vec<(&'static str, String)> = Vec::new();
        headers.push(("Content-Type", "application/taxii+json;version=2.1".to_owned()));
        headers.push(("Accept", "application/taxii+json;version=2.1".to_owned()));
        headers.push(("Authorization", auth));
        let client = CCTaxiiClient {
            base_url: "https://taxii2.cloudcover.net",
            common_headers: headers,
            account: username.to_owned(),
        };
        client
    }

    /// The fixed base address, for the caller that issues the requests.
    pub fn base_url(&self) -> (r: &'static str)
        ensures
            r@ == self.spec_base_url(),
    {
        self.base_url
    }

    /// The static headers, for the caller that issues the requests.
    pub fn common_headers(&self) -> (r: &Vec<(&'static str, String)>)
        ensures
            r@.len() == self.spec_headers().len(),
            forall|i: int| 0 <= i < r@.len() ==> (r@[i].0@, r@[i].1@) == self.spec_headers()[i],
    {
        &self.common_headers
    }

    /// The account name the client was constructed with.
    pub fn account(&self) -> (r: &str)
        ensures
            r@ == self.spec_account(),
    {
        self.account.as_str()
    }

    /// The full endpoint of a request: the path segment appended to the
    /// fixed base address.
    pub fn endpoint(&self, path: &str) -> (r: String)
        ensures
            r@ == self.spec_base_url() + "/"@ + path@,
    {
        let mut url = self.base_url.to_owned();
        url.append("/");
        url.append(path);
        url
    }

    /// Selects the query root: the stored account name for a private query,
    /// the fixed literal root `api` otherwise.
    pub fn root_for(&self, private: bool) -> (r: &str)
        ensures
            private ==> r@ == self.spec_account(),
            !private ==> r@ == "api"@,
    {
        if private {
            self.account.as_str()
        } else {
            "api"
        }
    }
}

/// The decimal digit character of one digit value.
pub open spec fn spec_digit(d: nat) -> char {
    if d == 0 {
        '0'
    } else if d == 1 {
        '1'
    } else if d == 2 {
        '2'
    } else if d == 3 {
        '3'
    } else if d == 4 {
        '4'
    } else if d == 5 {
        '5'
    } else if d == 6 {
        '6'
    } else if d == 7 {
        '7'
    } else if d == 8 {
        '8'
    } else {
        '9'
    }
}

/// The decimal numeral of a natural number, most significant digit first,
/// with no leading zeros (a lone zero for zero itself).
pub open spec fn spec_dec(n: nat) -> Seq<char>
    decreases n,
{
    if n < 10 {
        seq![spec_digit(n)]
    } else {
        spec_dec(n / 10) + seq![spec_digit(n % 10)]
    }
}

fn digit_str(d: usize) -> (r: &'static str)
    requires
        d < 10,
    ensures
        r@ == seq![spec_digit(d as nat)],
{
    let s: &'static str = match d {
        0 => "0",
        1 => "1",
        2 => "2",
        3 => "3",
        4 => "4",
        5 => "5",
        6 => "6",
        7 => "7",
        8 => "8",
        _ => "9",
    };
    proof {
        reveal_strlit("0");
        reveal_strlit("1");
        reveal_strlit("2");
        reveal_strlit("3");
        reveal_strlit("4");
        reveal_strlit("5");
        reveal_strlit("6");
        reveal_strlit("7");
        reveal_strlit("8");
        reveal_strlit("9");
        assert(s@ =~= seq![spec_digit(d as nat)]);
    }
    s
}

/// Renders a page-size value as its decimal numeral.
pub fn usize_dec(n: usize) -> (r: String)
    ensures
        r@ == spec_dec(n as nat),
    decreases n,
{
    if n < 10 {
        digit_str(n).to_owned()
    } else {
        let mut s = usize_dec(n / 10);
        s.append(digit_str(n % 10));
        s
    }
}

/// The query-string fragment of an ordered sequence of field filters: one
/// `&match[key]=value` per pair, in sequence order, with keys and values
/// interpolated as they stand.
pub open spec fn spec_match_params(filters: Seq<(String, String)>) -> Seq<char>
    decreases filters.len(),
{
    if filters.len() == 0 {
        Seq::<char>::empty()
    } else {
        spec_match_params(filters.drop_last()) + "&match["@ + filters.last().0@ + "]="@
            + filters.last().1@
    }
}

fn append_match_params(url: &mut String, filters: &Vec<(String, String)>)
    ensures
        final(url)@ == old(url)@ + spec_match_params(filters@),
{
    let mut i: usize = 0;
    while i < filters.len()
        invariant
            i <= filters@.len(),
            url@ == old(url)@ + spec_match_params(filters@.take(i as int)),
        decreases filters@.len() - i,
    {
        let pair = &filters[i];
        url.append("&match[");
        url.append(pair.0.as_str());
        url.append("]=");
        url.append(pair.1.as_str());
        i = i + 1;
        proof {
            assert(filters@.take(i as int).drop_last() =~= filters@.take(i as int - 1));
            assert(url@ =~= old(url)@ + spec_match_params(filters@.take(i as int)));
        }
    }
    proof {
        assert(filters@.take(filters@.len() as int) =~= filters@);
    }
}

/// The objects query for a collection under a root: the base path, then the
/// page size, then the optional added-after filter and the field filters,
/// in that order.
pub open spec fn spec_objects_query(
    root: Seq<char>,
    collection: Seq<char>,
    limit: nat,
    added_after: Option<Seq<char>>,
    filters: Seq<(String, String)>,
) -> Seq<char> {
    root + "/collections/"@ + collection + "/objects/?limit="@ + spec_dec(limit) + (match added_after {
        Some(t) => "&added_after="@ + t,
        None => Seq::<char>::empty(),
    }) + spec_match_params(filters)
}

/// Builds the objects query string for one collection. A missing limit
/// defaults to 1000; missing filters contribute nothing.
pub fn objects_query(
    root: &str,
    collection: &str,
    limit: Option<usize>,
    added_after: Option<&str>,
    filters: Option<&Vec<(String, String)>>,
) -> (r: String)
    ensures
        r@ == spec_objects_query(
            root@,
            collection@,
            (match limit {
                Some(n) => n as nat,
                None => 1000,
            }),
            (match added_after {
                Some(t) => Some(t@),
                None => None::<Seq<char>>,
            }),
            (match filters {
                Some(f) => f@,
                None => Seq::<(String, String)>::empty(),
            }),
        ),
{
    let mut url = root.to_owned();
    url.append("/collections/");
    url.append(collection);
    url.append("/objects/?limit=");
    let lim: usize = match limit {
        Some(n) => n,
        None => 1000,
    };
    let lim_str = usize_dec(lim);
    url.append(lim_str.as_str());
    match added_after {
        Some(t) => {
            url.append("&added_after=");
            url.append(t);
        },
        None => {},
    }
    match filters {
        Some(f) => append_match_params(&mut url, f),
        None => {
            proof {
                assert(url@ + spec_match_params(Seq::<(String, String)>::empty()) =~= url@);
            }
        },
    }
    url
}

impl CCTaxiiClient {
    /// The full objects query of an indicator retrieval: the root chosen by
    /// `private`, then the query for the given collection, page size and
    /// filters.
    pub fn indicators_query(
        &self,
        collection: &str,
        limit: Option<usize>,
        private: bool,
        added_after: Option<&str>,
        filters: Option<&Vec<(String, String)>>,
    ) -> (r: String)
        ensures
            r@ == spec_objects_query(
                (if private {
                    self.spec_account()
                } else {
                    "api"@
                }),
                collection@,
                (match limit {
                    Some(n) => n as nat,
                    None => 1000,
                }),
                (match added_after {
                    Some(t) => Some(t@),
                    None => None::<Seq<char>>,
                }),
                (match filters {
                    Some(f) => f@,
                    None => Seq::<(String, String)>::empty(),
                }),
            ),
    {
        let root = self.root_for(private);
        objects_query(root, collection, limit, added_after, filters)
    }
}

/// Whether a run that received this envelope goes on to another page: pages
/// must be followed, the server must claim more data, and it must have
/// supplied a cursor.
pub open spec fn spec_continues(envelope: CCEnvelope, follow_pages: bool) -> bool {
    follow_pages && envelope.more == Some(true) && envelope.next is Some
}

/// How many envelopes a run consumes from this sequence: one per page,
/// stopping after the first envelope that does not continue the run.
pub open spec fn spec_pages_consumed(pages: Seq<CCEnvelope>, follow_pages: bool) -> nat
    decreases pages.len(),
{
    if pages.len() == 0 {
        0
    } else if spec_continues(pages[0], follow_pages) {
        1 + spec_pages_consumed(pages.skip(1), follow_pages)
    } else {
        1
    }
}

/// The indicators a run collects from this sequence: the object lists of
/// the consumed envelopes, concatenated in page order.
pub open spec fn spec_collected(pages: Seq<CCEnvelope>, follow_pages: bool) -> Seq<CCIndicator>
    decreases pages.len(),
{
    if pages.len() == 0 {
        Seq::<CCIndicator>::empty()
    } else if spec_continues(pages[0], follow_pages) {
        pages[0].objects@ + spec_collected(pages.skip(1), follow_pages)
    } else {
        pages[0].objects@
    }
}

/// The object lists of every envelope in the sequence, concatenated in
/// page order.
pub open spec fn spec_all_objects(pages: Seq<CCEnvelope>) -> Seq<CCIndicator>
    decreases pages.len(),
{
    if pages.len() == 0 {
        Seq::<CCIndicator>::empty()
    } else {
        pages[0].objects@ + spec_all_objects(pages.skip(1))
    }
}

/// The state of one indicator retrieval between page fetches: the query for
/// the next request, the indicators accumulated so far, and whether another
/// page is still owed.
pub struct Pagination {
    pub url: String,
    pub indicators: Vec<CCIndicator>,
    pub more: bool,
}

impl Pagination {
    /// A run about to fetch its first page.
    pub fn start(url: String) -> (s: Self)
        ensures
            s.url == url,
            s.indicators@ == Seq::<CCIndicator>::empty(),
            s.more,
    {
        Pagination { url, indicators: Vec::new(), more: true }
    }

    /// Folds one decoded envelope into the run: appends its objects in
    /// order, continues only if pages are followed and the envelope claims
    /// more data and carries a cursor, and threads the cursor onto the
    /// query when one is present.
    pub fn step(&mut self, envelope: CCEnvelope, follow_pages: bool)
        requires
            old(self).more,
        ensures
            final(self).indicators@ == old(self).indicators@ + envelope.objects@,
            final(self).more == spec_continues(envelope, follow_pages),
            final(self).url@ == (match envelope.next {
                Some(cursor) => old(self).url@ + "&next="@ + cursor@,
                None => old(self).url@,
            }),
    {
        let CCEnvelope { more, next, objects } = envelope;
        let mut objs = objects;
        self.indicators.append(&mut objs);
        let claims_more: bool = match more {
            Some(b) => b,
            None => false,
        };
        match next {
            Some(cursor) => {
                self.url.append("&next=");
                self.url.append(cursor.as_str());
                self.more = follow_pages && claims_more;
            },
            None => {
                self.more = false;
            },
        }
    }
}

/// Drives a whole run over an already-fetched sequence of pages: starts at
/// the given query, folds envelopes in order, and returns the collected
/// indicators together with how many pages were consumed. The sequence must
/// hold a page at which the run stops.
pub fn collect_pages(start_url: String, pages: Vec<CCEnvelope>, follow_pages: bool) -> (r: (
    Vec<CCIndicator>,
    usize,
))
    requires
        pages@.len() > 0,
        exists|i: int| 0 <= i < pages@.len() && !spec_continues(pages@[i], follow_pages),
    ensures
        r.0@ == spec_collected(pages@, follow_pages),
        r.1 as nat == spec_pages_consumed(pages@, follow_pages),
{
    let mut state = Pagination::start(start_url);
    let mut rest = pages;
    let total: usize = rest.len();
    let mut used: usize = 0;
    loop
        invariant
            state.more,
            exists|i: int| 0 <= i < rest@.len() && !spec_continues(rest@[i], follow_pages),
            total as int == pages@.len(),
            used as int == pages@.len() - rest@.len(),
            spec_pages_consumed(pages@, follow_pages) == used as nat + spec_pages_consumed(
                rest@,
                follow_pages,
            ),
            spec_collected(pages@, follow_pages) == state.indicators@ + spec_collected(
                rest@,
                follow_pages,
            ),
        decreases rest@.len(),
    {
        let ghost prev_rest = rest@;
        let envelope = rest.remove(0);
        proof {
            assert(prev_rest.remove(0) =~= prev_rest.skip(1));
        }
        state.step(envelope, follow_pages);
        used = used + 1;
        if !state.more {
            proof {
                assert(spec_pages_consumed(prev_rest, follow_pages) == 1);
                assert(spec_collected(prev_rest, follow_pages) == envelope.objects@);
            }
            return (state.indicators, used);
        }
        proof {
            let i = choose|i: int|
                0 <= i < prev_rest.len() && !spec_continues(prev_rest[i], follow_pages);
            assert(spec_continues(prev_rest[0], follow_pages));
            assert(0 <= i - 1 < rest@.len() && !spec_continues(rest@[i - 1], follow_pages));
        }
    }
}

/// Pagination termination law: when pages are followed and each of the
/// first `n` envelopes claims more data and carries a cursor, while
/// envelope `n` does not claim more data, the run consumes exactly the
/// first `n + 1` envelopes and collects their object lists concatenated in
/// page order.
pub proof fn lemma_pagination_termination(pages: Seq<CCEnvelope>, n: int)
    requires
        0 <= n < pages.len(),
        forall|i: int| 0 <= i < n ==> spec_continues(#[trigger] pages[i], true),
        pages[n].more != Some(true),
    ensures
        spec_pages_consumed(pages, true) == n + 1,
        spec_collected(pages, true) == spec_all_objects(pages.take(n + 1)),
    decreases n,
{
    if n == 0 {
        assert(!spec_continues(pages[0], true));
        assert(pages.take(1).skip(1) =~= Seq::<CCEnvelope>::empty());
        assert(pages.take(1)[0] == pages[0]);
        assert(spec_all_objects(Seq::<CCEnvelope>::empty()) == Seq::<CCIndicator>::empty());
        assert(spec_all_objects(pages.take(1)) =~= pages[0].objects@);
    } else {
        assert(spec_continues(pages[0], true));
        assert(forall|i: int|
            0 <= i < n - 1 ==> spec_continues(#[trigger] pages.skip(1)[i], true)) by {
            assert(forall|i: int| 0 <= i < n - 1 ==> #[trigger] pages.skip(1)[i] == pages[i + 1]);
        }
        assert(pages.skip(1)[n - 1] == pages[n]);
        lemma_pagination_termination(pages.skip(1), n - 1);
        assert(pages.take(n + 1).skip(1) =~= pages.skip(1).take(n));
        assert(pages.take(n + 1)[0] == pages[0]);
    }
}

/// Single-page law: when pages are not followed, a run consumes exactly one
/// envelope and collects only the first page's objects, whatever that
/// envelope says.
pub proof fn lemma_single_page_when_not_following(pages: Seq<CCEnvelope>)
    requires
        pages.len() > 0,
    ensures
        spec_pages_consumed(pages, false) == 1,
        spec_collected(pages, false) == pages[0].objects@,
{
    assert(!spec_continues(pages[0], false));
}

/// Missing-cursor law: a first envelope without a cursor ends the run after
/// that one page, whether or not pages are followed and whatever its `more`
/// flag claims.
pub proof fn lemma_missing_cursor_stops(pages: Seq<CCEnvelope>, follow_pages: bool)
    requires
        pages.len() > 0,
        pages[0].next is None,
    ensures
        spec_pages_consumed(pages, follow_pages) == 1,
        spec_collected(pages, follow_pages) == pages[0].objects@,
{
    assert(!spec_continues(pages[0], follow_pages));
}

/// The default collection choice when none was supplied: the first entry of
/// the listing in server order, or a collection error when the listing is
/// empty.
pub fn first_collection(ids: &Vec<String>) -> (r: Result<String, TaxiiError>)
    ensures
        ids@.len() > 0 ==> (r matches Ok(c) && c == ids@[0]),
        ids@.len() == 0 ==> (r matches Err(e) && (e matches TaxiiError::TaxiiCollectionError(m)
            && m@ == "No collections available"@)),
{
    if ids.len() > 0 {
        Ok(ids[0].clone())
    } else {
        Err(TaxiiError::TaxiiCollectionError("No collections available".to_owned()))
    }
}

} // verus!
