use vstd::prelude::*;

use crate::json::{json_string_literal, quote_json};
use crate::text::{format_int, int_text, strip_slashes, trim_trailing_slashes};

verus! {

/// The production endpoint.
pub const DEFAULT_BASE_URL: &'static str = "https://api1.auto-api.com";

/// The API version used unless another is set.
pub const DEFAULT_API_VERSION: &'static str = "v2";

/// Seconds that one whole request may take.
pub const DEFAULT_TIMEOUT_SECS: u64 = 30;

/// What a client is configured with.
pub ghost struct ClientView {
    pub api_key: Seq<char>,
    pub base_url: Seq<char>,
    pub api_version: Seq<char>,
    pub timeout_secs: u64,
}

/// Connection settings of the API: credential, base URL, API version and
/// request timeout. Each method describes the request of one operation.
pub struct Client {
    api_key: String,
    base_url: String,
    api_version: String,
    timeout_secs: u64,
}

/// The HTTP method of a request.
#[derive(Debug, Clone, Copy, PartialEq, Eq, Structural)]
pub enum Method {
    Get,
    Post,
}

/// A request to send: the query pairs go into the URL's query string in
/// order, the headers are sent as they stand, and the body, where there is
/// one, is sent as it stands.
#[derive(Debug)]
pub struct Request {
    pub method: Method,
    pub url: String,
    pub query: Vec<(String, String)>,
    pub headers: Vec<(String, String)>,
    pub body: Option<String>,
}

/// Filters of an offers search; `page` is always sent, each other field only
/// where it is set.
#[derive(Debug, Clone)]
pub struct OffersParams {
    pub page: i32,
    pub brand: Option<String>,
    pub model: Option<String>,
    pub configuration: Option<String>,
    pub complectation: Option<String>,
    pub transmission: Option<String>,
    pub color: Option<String>,
    pub body_type: Option<String>,
    pub engine_type: Option<String>,
    pub year_from: Option<i32>,
    pub year_to: Option<i32>,
    pub mileage_from: Option<i32>,
    pub mileage_to: Option<i32>,
    pub price_from: Option<i32>,
    pub price_to: Option<i32>,
}

/// The pairs as text.
pub open spec fn pairs_view(v: Seq<(String, String)>) -> Seq<(Seq<char>, Seq<char>)> {
    v.map_values(|p: (String, String)| (p.0@, p.1@))
}

/// The text of a string filter, where it is set.
pub open spec fn text_value(v: Option<String>) -> Option<Seq<char>> {
    match v {
        Some(s) => Some(s@),
        None => None,
    }
}

/// The decimal text of a numeric filter, where it is set.
pub open spec fn int_value(v: Option<i32>) -> Option<Seq<char>> {
    match v {
        Some(n) => Some(int_text(n as int)),
        None => None,
    }
}

/// The filters of a search, each under its key, in the order in which they
/// are sent.
pub open spec fn filter_entries(p: OffersParams) -> Seq<(Seq<char>, Option<Seq<char>>)> {
    seq![
        ("brand"@, text_value(p.brand)),
        ("model"@, text_value(p.model)),
        ("configuration"@, text_value(p.configuration)),
        ("complectation"@, text_value(p.complectation)),
        ("transmission"@, text_value(p.transmission)),
        ("color"@, text_value(p.color)),
        ("body_type"@, text_value(p.body_type)),
        ("engine_type"@, text_value(p.engine_type)),
        ("year_from"@, int_value(p.year_from)),
        ("year_to"@, int_value(p.year_to)),
        ("mileage_from"@, int_value(p.mileage_from)),
        ("mileage_to"@, int_value(p.mileage_to)),
        ("price_from"@, int_value(p.price_from)),
        ("price_to"@, int_value(p.price_to)),
    ]
}

/// The pair of an entry whose value is set; nothing for one that is not.
pub open spec fn entry_pair(e: (Seq<char>, Option<Seq<char>>)) -> Seq<(Seq<char>, Seq<char>)> {
    match e.1 {
        Some(v) => seq![(e.0, v)],
        None => seq![],
    }
}

/// The pairs of the entries that are set, in order.
pub open spec fn set_pairs(s: Seq<(Seq<char>, Option<Seq<char>>)>) -> Seq<(Seq<char>, Seq<char>)>
    decreases s.len(),
{
    if s.len() == 0 {
        seq![]
    } else {
        set_pairs(s.drop_last()) + entry_pair(s.last())
    }
}

/// The query pairs of an offers search: `page` first, then each filter that is
/// set, in the order of `filter_entries`.
pub open spec fn offers_query(p: OffersParams) -> Seq<(Seq<char>, Seq<char>)> {
    seq![("page"@, int_text(p.page as int))] + set_pairs(filter_entries(p))
}

/// The URL of `endpoint` of `source`.
pub open spec fn endpoint_url(c: ClientView, source: Seq<char>, endpoint: Seq<char>) -> Seq<char> {
    c.base_url + "/api/"@ + c.api_version + "/"@ + source + "/"@ + endpoint
}

/// `r` is a GET of `endpoint` of `source` with the query pairs `params` and
/// then the credential as `api_key`.
pub open spec fn is_get_request(
    r: Request,
    c: ClientView,
    source: Seq<char>,
    endpoint: Seq<char>,
    params: Seq<(Seq<char>, Seq<char>)>,
) -> bool {
    &&& r.method == Method::Get
    &&& r.url@ == endpoint_url(c, source, endpoint)
    &&& pairs_view(r.query@) == params.push(("api_key"@, c.api_key))
    &&& r.headers@.len() == 0
    &&& r.body is None
}

/// The JSON body that names the listing at `url`.
pub open spec fn offer_url_body(url: Seq<char>) -> Seq<char> {
    "{\"url\":"@ + json_string_literal(url) + "}"@
}

impl View for Client {
    type V = ClientView;

    closed spec fn view(&self) -> ClientView {
        ClientView {
            api_key: self.api_key@,
            base_url: self.base_url@,
            api_version: self.api_version@,
            timeout_secs: self.timeout_secs,
        }
    }
}

fn push_pair(pairs: &mut Vec<(String, String)>, key: &str, value: String)
    ensures
        pairs_view(final(pairs)@) == pairs_view(old(pairs)@).push((key@, value@)),
{
    pairs.push((String::from_str(key), value));
    assert(pairs_view(final(pairs)@) =~= pairs_view(old(pairs)@).push((key@, value@)));
}

fn push_text(pairs: &mut Vec<(String, String)>, key: &str, v: &Option<String>)
    ensures
        pairs_view(final(pairs)@) == pairs_view(old(pairs)@) + entry_pair((key@, text_value(*v))),
{
    match v {
        Some(s) => push_pair(pairs, key, s.clone()),
        None => {},
    }
    assert(pairs_view(final(pairs)@) =~= pairs_view(old(pairs)@) + entry_pair(
        (key@, text_value(*v)),
    ));
}

fn push_int(pairs: &mut Vec<(String, String)>, key: &str, v: Option<i32>)
    ensures
        pairs_view(final(pairs)@) == pairs_view(old(pairs)@) + entry_pair((key@, int_value(v))),
{
    match v {
        Some(n) => push_pair(pairs, key, format_int(n as i64)),
        None => {},
    }
    assert(pairs_view(final(pairs)@) =~= pairs_view(old(pairs)@) + entry_pair(
        (key@, int_value(v)),
    ));
}

proof fn lemma_set_pairs_step(s: Seq<(Seq<char>, Option<Seq<char>>)>, k: int)
    requires
        0 <= k < s.len(),
    ensures
        set_pairs(s.take(k + 1)) == set_pairs(s.take(k)) + entry_pair(s[k]),
{
    assert(s.take(k + 1).drop_last() =~= s.take(k));
}

/// After the `k`-th filter, `pairs` hold `page` and the filters before it.
proof fn lemma_query_step(
    before: Seq<(Seq<char>, Seq<char>)>,
    after: Seq<(Seq<char>, Seq<char>)>,
    page: (Seq<char>, Seq<char>),
    s: Seq<(Seq<char>, Option<Seq<char>>)>,
    k: int,
)
    requires
        0 <= k < s.len(),
        before == seq![page] + set_pairs(s.take(k)),
        after == before + entry_pair(s[k]),
    ensures
        after == seq![page] + set_pairs(s.take(k + 1)),
{
    lemma_set_pairs_step(s, k);
    assert(after =~= seq![page] + set_pairs(s.take(k + 1)));
}

impl OffersParams {
    /// The query pairs of this search, `page` first.
    pub fn to_query_pairs(&self) -> (r: Vec<(String, String)>)
        ensures
            pairs_view(r@) == offers_query(*self),
    {
        let ghost es = filter_entries(*self);
        let ghost page = ("page"@, int_text(self.page as int));
        let mut pairs: Vec<(String, String)> = Vec::new();
        push_pair(&mut pairs, "page", format_int(self.page as i64));
        assert(pairs_view(pairs@) =~= seq![page] + set_pairs(es.take(0)));
        let ghost v0 = pairs_view(pairs@);
        push_text(&mut pairs, "brand", &self.brand);
        proof { lemma_query_step(v0, pairs_view(pairs@), page, es, 0); }
        let ghost v1 = pairs_view(pairs@);
        push_text(&mut pairs, "model", &self.model);
        proof { lemma_query_step(v1, pairs_view(pairs@), page, es, 1); }
        let ghost v2 = pairs_view(pairs@);
        push_text(&mut pairs, "configuration", &self.configuration);
        proof { lemma_query_step(v2, pairs_view(pairs@), page, es, 2); }
        let ghost v3 = pairs_view(pairs@);
        push_text(&mut pairs, "complectation", &self.complectation);
        proof { lemma_query_step(v3, pairs_view(pairs@), page, es, 3); }
        let ghost v4 = pairs_view(pairs@);
        push_text(&mut pairs, "transmission", &self.transmission);
        proof { lemma_query_step(v4, pairs_view(pairs@), page, es, 4); }
        let ghost v5 = pairs_view(pairs@);
        push_text(&mut pairs, "color", &self.color);
        proof { lemma_query_step(v5, pairs_view(pairs@), page, es, 5); }
        let ghost v6 = pairs_view(pairs@);
        push_text(&mut pairs, "body_type", &self.body_type);
        proof { lemma_query_step(v6, pairs_view(pairs@), page, es, 6); }
        let ghost v7 = pairs_view(pairs@);
        push_text(&mut pairs, "engine_type", &self.engine_type);
        proof { lemma_query_step(v7, pairs_view(pairs@), page, es, 7); }
        let ghost v8 = pairs_view(pairs@);
        push_int(&mut pairs, "year_from", self.year_from);
        proof { lemma_query_step(v8, pairs_view(pairs@), page, es, 8); }
        let ghost v9 = pairs_view(pairs@);
        push_int(&mut pairs, "year_to", self.year_to);
        proof { lemma_query_step(v9, pairs_view(pairs@), page, es, 9); }
        let ghost v10 = pairs_view(pairs@);
        push_int(&mut pairs, "mileage_from", self.mileage_from);
        proof { lemma_query_step(v10, pairs_view(pairs@), page, es, 10); }
        let ghost v11 = pairs_view(pairs@);
        push_int(&mut pairs, "mileage_to", self.mileage_to);
        proof { lemma_query_step(v11, pairs_view(pairs@), page, es, 11); }
        let ghost v12 = pairs_view(pairs@);
        push_int(&mut pairs, "price_from", self.price_from);
        proof { lemma_query_step(v12, pairs_view(pairs@), page, es, 12); }
        let ghost v13 = pairs_view(pairs@);
        push_int(&mut pairs, "price_to", self.price_to);
        proof {
            lemma_query_step(v13, pairs_view(pairs@), page, es, 13);
            assert(es.take(14) =~= es);
        }
        pairs
    }
}

impl Default for OffersParams {
    fn default() -> (r: OffersParams)
        ensures
            r.page == 0,
            r.brand is None,
            r.model is None,
            r.configuration is None,
            r.complectation is None,
            r.transmission is None,
            r.color is None,
            r.body_type is None,
            r.engine_type is None,
            r.year_from is None,
            r.year_to is None,
            r.mileage_from is None,
            r.mileage_to is None,
            r.price_from is None,
            r.price_to is None,
    {
        OffersParams {
            page: 0,
            brand: None,
            model: None,
            configuration: None,
            complectation: None,
            transmission: None,
            color: None,
            body_type: None,
            engine_type: None,
            year_from: None,
            year_to: None,
            mileage_from: None,
            mileage_to: None,
            price_from: None,
            price_to: None,
        }
    }
}

impl Client {
    /// A client of the production endpoint, API version `v2`, with the
    /// credential `api_key`.
    pub fn new(api_key: &str) -> (r: Client)
        ensures
            r@.api_key == api_key@,
            r@.base_url == DEFAULT_BASE_URL@,
            r@.api_version == DEFAULT_API_VERSION@,
            r@.timeout_secs == DEFAULT_TIMEOUT_SECS,
    {
        Client {
            api_key: String::from_str(api_key),
            base_url: String::from_str(DEFAULT_BASE_URL),
            api_version: String::from_str(DEFAULT_API_VERSION),
            timeout_secs: DEFAULT_TIMEOUT_SECS,
        }
    }

    /// Sets the base URL; the `/` characters at its end are dropped.
    pub fn set_base_url(&mut self, base_url: &str)
        ensures
            final(self)@ == (ClientView { base_url: strip_slashes(base_url@), ..old(self)@ }),
    {
        self.base_url = trim_trailing_slashes(base_url);
    }

    /// Sets the API version.
    pub fn set_api_version(&mut self, version: &str)
        ensures
            final(self)@ == (ClientView { api_version: version@, ..old(self)@ }),
    {
        self.api_version = String::from_str(version);
    }

    /// The credential.
    pub fn api_key(&self) -> (r: &str)
        ensures
            r@ == self@.api_key,
    {
        self.api_key.as_str()
    }

    /// The base URL.
    pub fn base_url(&self) -> (r: &str)
        ensures
            r@ == self@.base_url,
    {
        self.base_url.as_str()
    }

    /// The API version.
    pub fn api_version(&self) -> (r: &str)
        ensures
            r@ == self@.api_version,
    {
        self.api_version.as_str()
    }

    /// Seconds that one whole request may take.
    pub fn timeout_secs(&self) -> (r: u64)
        ensures
            r == self@.timeout_secs,
    {
        self.timeout_secs
    }

    fn endpoint(&self, source: &str, endpoint: &str) -> (r: String)
        ensures
            r@ == endpoint_url(self@, source@, endpoint@),
    {
        let mut url = String::from_str(self.base_url.as_str());
        url.append("/api/");
        url.append(self.api_version.as_str());
        url.append("/");
        url.append(source);
        url.append("/");
        url.append(endpoint);
        url
    }

    /// A GET of `endpoint` of `source` with `query` and then the credential.
    fn get(&self, source: &str, endpoint: &str, query: Vec<(String, String)>) -> (r: Request)
        ensures
            is_get_request(r, self@, source@, endpoint@, pairs_view(query@)),
    {
        let mut query = query;
        push_pair(&mut query, "api_key", String::from_str(self.api_key.as_str()));
        Request {
            method: Method::Get,
            url: self.endpoint(source, endpoint),
            query,
            headers: Vec::new(),
            body: None,
        }
    }

    /// The request for the filters that `source` offers (brands, models, body
    /// types and so on).
    pub fn get_filters(&self, source: &str) -> (r: Request)
        ensures
            is_get_request(r, self@, source@, "filters"@, seq![]),
    {
        let query: Vec<(String, String)> = Vec::new();
        assert(pairs_view(query@) =~= seq![]);
        self.get(source, "filters", query)
    }

    /// The request for one page of offers of `source` that match `params`.
    pub fn get_offers(&self, source: &str, params: &OffersParams) -> (r: Request)
        ensures
            is_get_request(r, self@, source@, "offers"@, offers_query(*params)),
    {
        self.get(source, "offers", params.to_query_pairs())
    }

    /// The request for the offer of `source` whose inner id is `inner_id`.
    pub fn get_offer(&self, source: &str, inner_id: &str) -> (r: Request)
        ensures
            is_get_request(r, self@, source@, "offer"@, seq![("inner_id"@, inner_id@)]),
    {
        let mut query: Vec<(String, String)> = Vec::new();
        push_pair(&mut query, "inner_id", String::from_str(inner_id));
        assert(pairs_view(query@) =~= seq![("inner_id"@, inner_id@)]);
        self.get(source, "offer", query)
    }

    /// The request for the change cursor of `source` at `date`
    /// (`yyyy-mm-dd`, sent as it stands).
    pub fn get_change_id(&self, source: &str, date: &str) -> (r: Request)
        ensures
            is_get_request(r, self@, source@, "change_id"@, seq![("date"@, date@)]),
    {
        let mut query: Vec<(String, String)> = Vec::new();
        push_pair(&mut query, "date", String::from_str(date));
        assert(pairs_view(query@) =~= seq![("date"@, date@)]);
        self.get(source, "change_id", query)
    }

    /// The request for the changes feed of `source` from the cursor `change_id`.
    pub fn get_changes(&self, source: &str, change_id: i64) -> (r: Request)
        ensures
            is_get_request(
                r,
                self@,
                source@,
                "changes"@,
                seq![("change_id"@, int_text(change_id as int))],
            ),
    {
        let mut query: Vec<(String, String)> = Vec::new();
        push_pair(&mut query, "change_id", format_int(change_id));
        assert(pairs_view(query@) =~= seq![("change_id"@, int_text(change_id as int))]);
        self.get(source, "changes", query)
    }

    /// The request for the offer at `offer_url` on its marketplace: a POST of
    /// `{"url": offer_url}` to the version-independent `v1` endpoint, with the
    /// credential in the `x-api-key` header and never in the query.
    pub fn get_offer_by_url(&self, offer_url: &str) -> (r: Request)
        ensures
            r.method == Method::Post,
            r.url@ == self@.base_url + "/api/v1/offer/info"@,
            r.query@.len() == 0,
            pairs_view(r.headers@) == seq![
                ("x-api-key"@, self@.api_key),
                ("content-type"@, "application/json"@),
            ],
            r.body matches Some(b) && b@ == offer_url_body(offer_url@),
    {
        let mut url = String::from_str(self.base_url.as_str());
        url.append("/api/v1/offer/info");
        let mut headers: Vec<(String, String)> = Vec::new();
        push_pair(&mut headers, "x-api-key", String::from_str(self.api_key.as_str()));
        push_pair(&mut headers, "content-type", String::from_str("application/json"));
        assert(pairs_view(headers@) =~= seq![
            ("x-api-key"@, self@.api_key),
            ("content-type"@, "application/json"@),
        ]);
        let mut body = String::from_str("{\"url\":");
        body.append(quote_json(offer_url).as_str());
        body.append("}");
        Request { method: Method::Post, url, query: Vec::new(), headers, body: Some(body) }
    }
}

} // verus!
