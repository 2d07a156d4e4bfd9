//! The API client: request construction and response decoding for the four
//! endpoints `/v1/random`, `/v1/categories`, `/v1/search` and `/v1/get/id`.
//!
//! The client performs no retries, no backoff and no caching: each operation
//! is one best-effort round trip. The functions here build the request (URL
//! and query parameters) and translate the response (status, headers, body
//! bytes) into domain values or typed errors; the transport that carries the
//! request is outside the library.
use crate::book::{
    spec_book_from_fields, spec_book_from_response, spec_lookup, book_data_wf, book_wf, Book,
    BookData, BookDataModel, BookModel,
};
use crate::encoding::{percent_encode_str, percent_encoded, u8_decimal, u8_to_decimal_string};
use crate::errors::{ApiError, ApiErrorModel};
use crate::json::{
    json_object_array_of, json_object_of, json_string_array_of, parse_json_object_array,
    parse_json_string_array, parse_json_string_object,
};
use vstd::prelude::*;
use vstd::string::StringExecFns;

verus! {

/// A response status in the 2xx range signals success.
pub open spec fn spec_is_success_status(status: u16) -> bool {
    200 <= status < 300
}

/// Decides whether an HTTP status code counts as a successful response.
pub fn is_success_status(status: u16) -> (r: bool)
    ensures
        r == spec_is_success_status(status),
{
    200 <= status && status < 300
}

/// The service's production origin, used when no base URL is given.
pub open spec fn default_api_url() -> Seq<char> {
    "https://api.devgoldy.xyz/aghpb"@
}

/// Mathematical model of an [`ApiRequest`].
pub ghost struct ApiRequestModel {
    pub url: Seq<char>,
    pub query: Seq<(Seq<char>, Seq<char>)>,
}

/// A request the client wants sent: the full URL and the query parameters to
/// append to it. The transport serialises the query pairs; the client never
/// sends a parameter it did not put here.
#[derive(Debug, Clone, PartialEq, Eq)]
pub struct ApiRequest {
    /// The URL of the endpoint, with any path segment already encoded.
    pub url: String,
    /// The query parameters, in order.
    pub query: Vec<(String, String)>,
}

impl View for ApiRequest {
    type V = ApiRequestModel;

    open spec fn view(&self) -> ApiRequestModel {
        ApiRequestModel { url: self.url@, query: self.query.deep_view() }
    }
}

/// The query parameters of a search: `query` always, `category` exactly when
/// one is given, `limit` (in decimal) exactly when one is given, in that
/// order.
pub open spec fn spec_search_query(
    query: Seq<char>,
    category: Option<Seq<char>>,
    limit: Option<u8>,
) -> Seq<(Seq<char>, Seq<char>)> {
    let base = seq![("query"@, query)];
    let with_category = match category {
        Some(c) => base.push(("category"@, c)),
        None => base,
    };
    match limit {
        Some(n) => with_category.push(("limit"@, u8_decimal(n))),
        None => with_category,
    }
}

/// A typed client for the service: a base URL. The transport that carries
/// the requests lives with the caller; the client only decides what is sent
/// and what a response means.
#[derive(Debug, Clone)]
pub struct Client {
    /// Base URL of the service, immutable after construction.
    pub api_url: String,
}

impl Client {
    /// Creates a client for the given base URL, or for the service's
    /// production origin when none is given.
    pub fn new(api_url: Option<&str>) -> (r: Self)
        ensures
            match api_url {
                Some(u) => r.api_url@ == u@,
                None => r.api_url@ == default_api_url(),
            },
    {
        match api_url {
            Some(u) => Client { api_url: String::from_str(u) },
            None => Client { api_url: String::from_str("https://api.devgoldy.xyz/aghpb") },
        }
    }

    /// Builds the request for a random book: `GET {base}/v1/random`, with
    /// exactly one `category` parameter when a category is given and no
    /// `category` parameter at all otherwise.
    pub fn random_request(&self, category: Option<String>) -> (r: ApiRequest)
        ensures
            r@.url == self.api_url@ + "/v1/random"@,
            match category {
                Some(c) => r@.query == seq![("category"@, c@)],
                None => r@.query == Seq::<(Seq<char>, Seq<char>)>::empty(),
            },
    {
        let mut query: Vec<(String, String)> = Vec::new();
        match category {
            Some(c) => {
                query.push((String::from_str("category"), c));
                proof {
                    assert(query.deep_view() =~= seq![("category"@, category->Some_0@)]);
                }
            },
            None => {
                proof {
                    assert(query.deep_view() =~= Seq::<(Seq<char>, Seq<char>)>::empty());
                }
            },
        }
        ApiRequest { url: self.api_url.clone().concat("/v1/random"), query }
    }

    /// Builds the request for the category list: `GET {base}/v1/categories`,
    /// with no query parameters.
    pub fn categories_request(&self) -> (r: ApiRequest)
        ensures
            r@.url == self.api_url@ + "/v1/categories"@,
            r@.query == Seq::<(Seq<char>, Seq<char>)>::empty(),
    {
        let query: Vec<(String, String)> = Vec::new();
        proof {
            assert(query.deep_view() =~= Seq::<(Seq<char>, Seq<char>)>::empty());
        }
        ApiRequest { url: self.api_url.clone().concat("/v1/categories"), query }
    }

    /// Builds the request for a search: `GET {base}/v1/search` with the
    /// `query`, optional `category` and optional `limit` parameters of
    /// [`spec_search_query`].
    pub fn search_request(&self, query: String, category: Option<String>, limit: Option<u8>) -> (r:
        ApiRequest)
        ensures
            r@.url == self.api_url@ + "/v1/search"@,
            r@.query == spec_search_query(query@, category.deep_view(), limit),
    {
        let ghost query_view = query@;
        let ghost category_view = category.deep_view();
        let mut pairs: Vec<(String, String)> = Vec::new();
        pairs.push((String::from_str("query"), query));
        proof {
            assert(pairs.deep_view() =~= seq![("query"@, query_view)]);
        }
        match category {
            Some(c) => {
                let ghost before = pairs.deep_view();
                pairs.push((String::from_str("category"), c));
                proof {
                    assert(pairs.deep_view() =~= before.push(("category"@, category_view->Some_0)));
                }
            },
            None => {},
        }
        let ghost with_category = pairs.deep_view();
        match limit {
            Some(n) => {
                pairs.push((String::from_str("limit"), u8_to_decimal_string(n)));
                proof {
                    assert(pairs.deep_view() =~= with_category.push(("limit"@, u8_decimal(n))));
                }
            },
            None => {},
        }
        proof {
            assert(pairs.deep_view() == spec_search_query(query_view, category_view, limit));
        }
        ApiRequest { url: self.api_url.clone().concat("/v1/search"), query: pairs }
    }

    /// Builds the request for one book by search id:
    /// `GET {base}/v1/get/id/{encoded id}`, the raw id percent-encoded into
    /// the path segment (so the segment contains no literal `/` or space:
    /// see `lemma_percent_encoded_no_separator`).
    pub fn get_id_request(&self, search_id: String) -> (r: ApiRequest)
        ensures
            r@.url == self.api_url@ + "/v1/get/id/"@ + percent_encoded(
                vstd::utf8::encode_utf8(search_id@),
            ),
            r@.query == Seq::<(Seq<char>, Seq<char>)>::empty(),
    {
        let query: Vec<(String, String)> = Vec::new();
        proof {
            assert(query.deep_view() =~= Seq::<(Seq<char>, Seq<char>)>::empty());
        }
        let encoded = percent_encode_str(search_id.as_str());
        ApiRequest {
            url: self.api_url.clone().concat("/v1/get/id/").concat(encoded.as_str()),
            query,
        }
    }
}

/// The error a non-2xx response decodes to: the `{error, message}` body
/// surfaced verbatim where it is well-formed, and a malformed-response error
/// otherwise (naming the missing key, or `body` where the body is not a JSON
/// object of strings at all).
pub open spec fn spec_error_of_body(body: Seq<u8>) -> ApiErrorModel {
    match json_object_of(body) {
        None => ApiErrorModel::MalformedResponse { field: "body"@ },
        Some(pairs) => if spec_lookup(pairs, "error"@) is None {
            ApiErrorModel::MalformedResponse { field: "error"@ }
        } else if spec_lookup(pairs, "message"@) is None {
            ApiErrorModel::MalformedResponse { field: "message"@ }
        } else {
            ApiErrorModel::Api {
                error: spec_lookup(pairs, "error"@)->Some_0,
                message: spec_lookup(pairs, "message"@)->Some_0,
            }
        },
    }
}

/// Decodes the body of a non-2xx response into the error returned to the
/// caller, per [`spec_error_of_body`].
pub fn error_from_body(body: &[u8]) -> (r: ApiError)
    ensures
        r@ == spec_error_of_body(body@),
{
    match parse_json_string_object(body) {
        None => ApiError::MalformedResponse { field: String::from_str("body") },
        Some(pairs) => {
            let error = match lookup_pair(&pairs, "error") {
                Some(v) => v,
                None => {
                    return ApiError::MalformedResponse { field: String::from_str("error") };
                },
            };
            let message = match lookup_pair(&pairs, "message") {
                Some(v) => v,
                None => {
                    return ApiError::MalformedResponse { field: String::from_str("message") };
                },
            };
            ApiError::Api { error, message }
        },
    }
}

/// Returns the value of the first pair with the given name, if any.
fn lookup_pair(pairs: &Vec<(String, String)>, key: &str) -> (r: Option<String>)
    ensures
        match r {
            Some(v) => spec_lookup(pairs.deep_view(), key@) == Some(v@),
            None => spec_lookup(pairs.deep_view(), key@) is None,
        },
{
    crate::book::lookup_field(pairs, &String::from_str(key))
}

/// Law: a non-2xx response whose body is a JSON object carrying `error` and
/// `message` decodes, on every endpoint and whatever the status, to an API
/// error whose fields match the body's exactly.
pub proof fn lemma_error_body_surfaced_verbatim(
    status: u16,
    headers: Seq<(Seq<char>, Seq<char>)>,
    body: Seq<u8>,
    pairs: Seq<(Seq<char>, Seq<char>)>,
)
    requires
        !spec_is_success_status(status),
        json_object_of(body) == Some(pairs),
        spec_lookup(pairs, "error"@) is Some,
        spec_lookup(pairs, "message"@) is Some,
    ensures
        spec_book_response(status, headers, body) == Err::<BookModel, ApiErrorModel>(
            ApiErrorModel::Api {
                error: spec_lookup(pairs, "error"@)->Some_0,
                message: spec_lookup(pairs, "message"@)->Some_0,
            },
        ),
        spec_categories_response(status, body) == Err::<Seq<Seq<char>>, ApiErrorModel>(
            ApiErrorModel::Api {
                error: spec_lookup(pairs, "error"@)->Some_0,
                message: spec_lookup(pairs, "message"@)->Some_0,
            },
        ),
        spec_search_response(status, body) == Err::<Seq<BookDataModel>, ApiErrorModel>(
            ApiErrorModel::Api {
                error: spec_lookup(pairs, "error"@)->Some_0,
                message: spec_lookup(pairs, "message"@)->Some_0,
            },
        ),
{
}

/// Law: a non-2xx response with an unparseable body decodes, on every
/// endpoint and whatever the status, to a malformed-response error — never
/// to a book, a category list or a default value.
pub proof fn lemma_unparseable_error_body_is_malformed(
    status: u16,
    headers: Seq<(Seq<char>, Seq<char>)>,
    body: Seq<u8>,
)
    requires
        !spec_is_success_status(status),
        json_object_of(body) is None,
    ensures
        spec_book_response(status, headers, body) == Err::<BookModel, ApiErrorModel>(
            ApiErrorModel::MalformedResponse { field: "body"@ },
        ),
        spec_categories_response(status, body) == Err::<Seq<Seq<char>>, ApiErrorModel>(
            ApiErrorModel::MalformedResponse { field: "body"@ },
        ),
        spec_search_response(status, body) == Err::<Seq<BookDataModel>, ApiErrorModel>(
            ApiErrorModel::MalformedResponse { field: "body"@ },
        ),
{
}

/// What a `/v1/random` or `/v1/get/id` response means: on a 2xx status, the
/// book built from headers and body (any shape violation reported as
/// malformed); on any other status, the decoded error body.
pub open spec fn spec_book_response(
    status: u16,
    headers: Seq<(Seq<char>, Seq<char>)>,
    body: Seq<u8>,
) -> Result<BookModel, ApiErrorModel> {
    if spec_is_success_status(status) {
        match spec_book_from_response(headers, body) {
            Ok(b) => Ok(b),
            Err(f) => Err(ApiErrorModel::MalformedResponse { field: f }),
        }
    } else {
        Err(spec_error_of_body(body))
    }
}

/// Decodes a `/v1/random` or `/v1/get/id` response, per
/// [`spec_book_response`]. Never returns a default book: the result is a
/// fully populated book or an error.
pub fn book_response(status: u16, headers: &Vec<(String, String)>, body: Vec<u8>) -> (r: Result<
    Book,
    ApiError,
>)
    ensures
        match r {
            Ok(b) => spec_book_response(status, headers.deep_view(), body@) == Ok::<
                BookModel,
                ApiErrorModel,
            >(b@) && book_wf(b@),
            Err(e) => spec_book_response(status, headers.deep_view(), body@) == Err::<
                BookModel,
                ApiErrorModel,
            >(e@),
        },
{
    if is_success_status(status) {
        match Book::from_response(headers, body) {
            Ok(b) => Ok(b),
            Err(e) => Err(e),
        }
    } else {
        Err(error_from_body(body.as_slice()))
    }
}

/// What a `/v1/categories` response means: on a 2xx status, the body as a
/// JSON array of strings (anything else is malformed); on any other status,
/// the decoded error body.
pub open spec fn spec_categories_response(status: u16, body: Seq<u8>) -> Result<
    Seq<Seq<char>>,
    ApiErrorModel,
> {
    if spec_is_success_status(status) {
        match json_string_array_of(body) {
            Some(v) => Ok(v),
            None => Err(ApiErrorModel::MalformedResponse { field: "body"@ }),
        }
    } else {
        Err(spec_error_of_body(body))
    }
}

/// Decodes a `/v1/categories` response into the ordered category list, per
/// [`spec_categories_response`].
pub fn categories_response(status: u16, body: &[u8]) -> (r: Result<Vec<String>, ApiError>)
    ensures
        match r {
            Ok(v) => spec_categories_response(status, body@) == Ok::<
                Seq<Seq<char>>,
                ApiErrorModel,
            >(v.deep_view()),
            Err(e) => spec_categories_response(status, body@) == Err::<
                Seq<Seq<char>>,
                ApiErrorModel,
            >(e@),
        },
{
    if is_success_status(status) {
        match parse_json_string_array(body) {
            Some(v) => Ok(v),
            None => Err(ApiError::MalformedResponse { field: String::from_str("body") }),
        }
    } else {
        Err(error_from_body(body))
    }
}

/// What parsing a sequence of JSON search entries yields: each entry's
/// metadata in order, or the first missing or invalid field name.
pub open spec fn spec_books_from_objects(objs: Seq<Seq<(Seq<char>, Seq<char>)>>) -> Result<
    Seq<BookDataModel>,
    Seq<char>,
>
    decreases objs.len(),
{
    if objs.len() == 0 {
        Ok(Seq::empty())
    } else {
        match spec_book_from_fields(objs[0]) {
            Err(f) => Err(f),
            Ok(d) => match spec_books_from_objects(objs.skip(1)) {
                Err(f) => Err(f),
                Ok(rest) => Ok(seq![d] + rest),
            },
        }
    }
}

/// What a `/v1/search` response means: on a 2xx status, the body as a JSON
/// array of objects, each parsed into metadata (any shape violation reported
/// as malformed); on any other status, the decoded error body.
pub open spec fn spec_search_response(status: u16, body: Seq<u8>) -> Result<
    Seq<BookDataModel>,
    ApiErrorModel,
> {
    if spec_is_success_status(status) {
        match json_object_array_of(body) {
            None => Err(ApiErrorModel::MalformedResponse { field: "body"@ }),
            Some(objs) => match spec_books_from_objects(objs) {
                Ok(ds) => Ok(ds),
                Err(f) => Err(ApiErrorModel::MalformedResponse { field: f }),
            },
        }
    } else {
        Err(spec_error_of_body(body))
    }
}

/// Decodes a `/v1/search` response into the parsed metadata list, per
/// [`spec_search_response`]. Every entry of a successful result is
/// well-formed.
pub fn search_response(status: u16, body: &[u8]) -> (r: Result<Vec<BookData>, ApiError>)
    ensures
        match r {
            Ok(v) => spec_search_response(status, body@) == Ok::<
                Seq<BookDataModel>,
                ApiErrorModel,
            >(v.deep_view()) && forall|j: int|
                0 <= j < v.deep_view().len() ==> book_data_wf(v.deep_view()[j]),
            Err(e) => spec_search_response(status, body@) == Err::<
                Seq<BookDataModel>,
                ApiErrorModel,
            >(e@),
        },
{
    if !is_success_status(status) {
        return Err(error_from_body(body));
    }
    let objs = match parse_json_object_array(body) {
        Some(v) => v,
        None => {
            return Err(ApiError::MalformedResponse { field: String::from_str("body") });
        },
    };
    let ghost om = objs.deep_view();
    let mut books: Vec<BookData> = Vec::new();
    proof {
        assert(om.skip(0) =~= om);
        assert(books.deep_view() =~= Seq::<BookDataModel>::empty());
    }
    let mut i: usize = 0;
    while i < objs.len()
        invariant
            i <= objs.len(),
            om == objs.deep_view(),
            om.len() == objs@.len(),
            spec_is_success_status(status),
            json_object_array_of(body@) == Some(om),
            books.deep_view().len() == i,
            forall|j: int| 0 <= j < i ==> book_data_wf(books.deep_view()[j]),
            spec_books_from_objects(om.skip(i as int)) matches Ok(rest)
                ==> spec_books_from_objects(om) == Ok::<Seq<BookDataModel>, Seq<char>>(
                books.deep_view() + rest,
            ),
            spec_books_from_objects(om.skip(i as int)) matches Err(f) ==> spec_books_from_objects(
                om,
            ) == Err::<Seq<BookDataModel>, Seq<char>>(f),
        decreases objs.len() - i,
    {
        proof {
            assert(om.skip(i as int).len() == om.len() - i);
            assert(om.skip(i as int)[0] == om[i as int]);
            assert(om[i as int] == objs@[i as int].deep_view());
        }
        match BookData::from_json(&objs[i]) {
            Ok(d) => {
                let ghost before = books.deep_view();
                books.push(d);
                proof {
                    assert(books.deep_view() =~= before.push(d@));
                    assert(om.skip(i as int).skip(1) =~= om.skip(i as int + 1));
                    assert(before + (seq![d@] + spec_books_from_objects(
                        om.skip(i as int + 1),
                    )->Ok_0) =~= books.deep_view() + spec_books_from_objects(
                        om.skip(i as int + 1),
                    )->Ok_0);
                }
            },
            Err(e) => {
                proof {
                    let f = spec_book_from_fields(om.skip(i as int)[0])->Err_0;
                    assert(spec_books_from_objects(om.skip(i as int)) == Err::<
                        Seq<BookDataModel>,
                        Seq<char>,
                    >(f));
                    assert(spec_books_from_objects(om) == Err::<Seq<BookDataModel>, Seq<char>>(f));
                }
                return Err(e);
            },
        }
        i += 1;
    }
    proof {
        assert(om.skip(i as int) =~= Seq::<Seq<(Seq<char>, Seq<char>)>>::empty());
        assert(books.deep_view() + Seq::<BookDataModel>::empty() =~= books.deep_view());
    }
    Ok(books)
}

} // verus!
