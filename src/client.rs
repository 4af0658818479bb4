use crate::response::ApiResponse;
use crate::url::{pair_text, pairs_view, render, UrlBuilder};
use reqwest::Url;
use vstd::prelude::*;

verus! {

#[verifier::external_type_specification]
#[verifier::external_body]
pub struct ExUrl(reqwest::Url);

/// Whether `Url::parse` accepts a text.
pub uninterp spec fn url_accepts(s: Seq<char>) -> bool;

/// Relies on `Url::parse` (the url crate, as reqwest re-exports it): it
/// accepts or refuses a text by the text alone, and its error is kept as its
/// message.
#[verifier::external_body]
fn parse_url(s: &str) -> (r: Result<Url, String>)
    ensures
        r is Ok <==> url_accepts(s@),
{
    match Url::parse(s) {
        Ok(url) => Ok(url),
        Err(e) => Err(e.to_string()),
    }
}

/// The provider's versioned API base.
pub const DEFAULT_ROOT: &'static str = "https://finnhub.io/api/v1";

/// The query key under which the credential travels.
pub const TOKEN_PARAM: &'static str = "token";

/// The status with which the provider turns a call away for throttling.
pub const TOO_MANY_REQUESTS: u16 = 429;

/// Why a call failed.
#[derive(Debug, Clone, PartialEq, Eq)]
pub enum ClientError {
    /// The rendered request text is not a URL.
    InvalidUrl(String),
    /// The network call itself failed.
    TransportError(String),
    /// The body did not decode into the expected shape.
    DecodeError(String),
}

/// A client of the financial-data API.
#[derive(Debug, Clone)]
pub struct Client {
    /// API key from the provider's dashboard.
    pub api_key: String,
    /// Renders request texts from root, endpoint and parameters.
    pub url_bldr: UrlBuilder,
}

/// A call whose URL is built and parsed, waiting for the transport.
#[derive(Debug)]
pub struct Request {
    /// The exact text that was rendered and parsed.
    pub text: String,
    /// The parsed URL that the transport is to fetch.
    pub url: Url,
}

/// What a call does once the transport has given a status.
#[derive(Debug)]
pub enum Step<T> {
    /// Decode the body, then hand the result to `Request::on_body`.
    DecodeBody(Request),
    /// The call is over; the body is not to be read.
    Finished(ApiResponse<T>, Url),
}

/// The request text of a call: the caller's parameters, then the credential.
pub open spec fn request_text(
    root: Seq<char>,
    endpoint: Seq<char>,
    ps: Seq<(Seq<char>, Seq<char>)>,
    key: Seq<char>,
) -> Seq<char> {
    render(root, endpoint, ps.push((TOKEN_PARAM@, key)))
}

/// The credential goes last: the request text of a call is the text rendered
/// from the caller's parameters alone, followed by the credential's item, so
/// every caller parameter stands before it and in the caller's order.
pub proof fn lemma_token_last(
    root: Seq<char>,
    endpoint: Seq<char>,
    ps: Seq<(Seq<char>, Seq<char>)>,
    key: Seq<char>,
)
    ensures
        ps.len() == 0 ==> request_text(root, endpoint, ps, key) == render(root, endpoint, ps)
            + pair_text((TOKEN_PARAM@, key)),
        ps.len() > 0 ==> request_text(root, endpoint, ps, key) == render(root, endpoint, ps)
            + seq!['&'] + pair_text((TOKEN_PARAM@, key)),
{
    let all = ps.push((TOKEN_PARAM@, key));
    assert(all.drop_last() =~= ps);
    assert(all.last() == (TOKEN_PARAM@, key));
    if ps.len() == 0 {
        assert(render(root, endpoint, ps) =~= root + seq!['/'] + endpoint + seq!['?']);
        assert(request_text(root, endpoint, ps, key) =~= render(root, endpoint, ps) + pair_text(
            (TOKEN_PARAM@, key),
        ));
    } else {
        assert(request_text(root, endpoint, ps, key) =~= render(root, endpoint, ps) + seq!['&']
            + pair_text((TOKEN_PARAM@, key)));
    }
}

impl Client {
    /// Creates a client for the default API base.
    pub fn new(api_key: String) -> (r: Client)
        ensures
            r.api_key == api_key,
            r.url_bldr.root@ == DEFAULT_ROOT@,
    {
        Client::v1(api_key)
    }

    /// Creates a client for version 1 of the API.
    pub fn v1(api_key: String) -> (r: Client)
        ensures
            r.api_key == api_key,
            r.url_bldr.root@ == DEFAULT_ROOT@,
    {
        Client { api_key, url_bldr: UrlBuilder::new(DEFAULT_ROOT) }
    }

    /// Appends `(param, value)` to the parameters when a value is given.
    pub fn maybe_add<'a>(params: &mut Vec<(&'a str, String)>, param: &'a str, value: Option<String>)
        ensures
            value is None ==> final(params)@ == old(params)@,
            value is Some ==> final(params)@ == old(params)@.push((param, value->Some_0)),
    {
        if let Some(value) = value {
            params.push((param, value));
        }
    }

    /// Appends the credential to the parameters, renders the request text and
    /// parses it as a URL.
    pub fn prepare<'a>(&self, endpoint: &str, params: &mut Vec<(&'a str, String)>) -> (r: Result<
        Request,
        ClientError,
    >)
        ensures
            final(params)@ == old(params)@.push((TOKEN_PARAM, self.api_key)),
            r is Ok <==> url_accepts(
                request_text(self.url_bldr.root@, endpoint@, pairs_view(old(params)@), self.api_key@),
            ),
            r is Ok ==> r->Ok_0.text@ == request_text(
                self.url_bldr.root@,
                endpoint@,
                pairs_view(old(params)@),
                self.api_key@,
            ),
            r is Err ==> r->Err_0 is InvalidUrl,
    {
        params.push((TOKEN_PARAM, self.api_key.clone()));
        let text = self.url_bldr.url(endpoint, params);
        assert(pairs_view(params@) =~= pairs_view(old(params)@).push((TOKEN_PARAM@, self.api_key@)));
        match parse_url(text.as_str()) {
            Ok(url) => Ok(Request { text, url }),
            Err(msg) => Err(ClientError::InvalidUrl(msg)),
        }
    }
}

impl Request {
    /// Decides from the status whether the body is to be decoded: the
    /// throttling status ends the call at once.
    pub fn on_status<T>(self, status: u16) -> (r: Step<T>)
        ensures
            status == TOO_MANY_REQUESTS ==> r == Step::<T>::Finished(
                ApiResponse::RateLimitReached,
                self.url,
            ),
            status != TOO_MANY_REQUESTS ==> r == Step::<T>::DecodeBody(self),
    {
        if status == TOO_MANY_REQUESTS {
            Step::Finished(ApiResponse::RateLimitReached, self.url)
        } else {
            Step::DecodeBody(self)
        }
    }

    /// Ends the call with what decoding the body gave.
    pub fn on_body<T>(self, decoded: Result<T, String>) -> (r: Result<(ApiResponse<T>, Url), ClientError>)
        ensures
            decoded is Ok ==> r == Ok::<(ApiResponse<T>, Url), ClientError>(
                (ApiResponse::Response(decoded->Ok_0), self.url),
            ),
            decoded is Err ==> r == Err::<(ApiResponse<T>, Url), ClientError>(
                ClientError::DecodeError(decoded->Err_0),
            ),
    {
        match decoded {
            Ok(value) => Ok((ApiResponse::Response(value), self.url)),
            Err(msg) => Err(ClientError::DecodeError(msg)),
        }
    }
}

} // verus!
