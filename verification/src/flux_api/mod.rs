//! What the host keeps about its session with the Flux API: the header
//! that authenticates it and the balance that was fetched last. The
//! modules below build the requests that the host sends to the API.

pub mod authentication;
pub mod balance;
pub mod deployment;

use vstd::prelude::*;
use vstd::string::StrSliceExecFns;
use crate::proxy_canister_types::{HttpRequestEndpointArgs, HttpRequestEndpointArgsView};
use crate::types::{
    body_view,
    callback_view,
    headers_view,
    HttpHeader,
    HttpHeaderView,
    HttpMethod,
    HttpRequest,
    HttpRequestTimeoutMs,
    HttpRequestView,
    HttpResponse,
    HttpResponseView,
    HttpResult,
    HttpResultView,
};

verus! {

pub const DEFAULT_HTTP_REQUEST_TIMEOUT_MS: u64 = 15_000;

/// The name of the header that authenticates the host.
pub open spec fn zelidauth_header_name() -> Seq<char> {
    "zelidauth"@
}

/// The header that authenticates the host with the value `zelid_auth`.
pub open spec fn zelidauth_header(zelid_auth: Seq<char>) -> HttpHeaderView {
    HttpHeaderView { name: zelidauth_header_name(), value: zelid_auth }
}

/// The address of the Flux API.
pub open spec fn flux_api_base_url() -> Seq<char> {
    "https://api.runonflux.io"@
}

/// The header that says that a body is plain text.
pub open spec fn content_type_text_plain_header() -> HttpHeaderView {
    HttpHeaderView { name: "Content-Type"@, value: "text/plain"@ }
}

pub fn content_type_text_plain() -> (header: HttpHeader)
    ensures
        header@ == content_type_text_plain_header(),
{
    HttpHeader { name: "Content-Type".to_owned(), value: "text/plain".to_owned() }
}

/// The serialization of the URL that `input` resolves to against the URL
/// `base`, if both are URLs.
pub uninterp spec fn url_join_text(base: Seq<char>, input: Seq<char>) -> Option<Seq<char>>;

/// `Url::parse` and `Url::join` of the crate url, read out with
/// `to_string`: the serialization of the URL that `input` resolves to
/// against the URL that `base` is; nothing if either does not parse.
#[verifier::external_body]
fn url_join(base: &str, input: &str) -> (text: Option<String>)
    ensures
        callback_view(text) == url_join_text(base@, input@),
{
    url::Url::parse(base).ok()?.join(input).ok().map(|u| u.to_string())
}

/// The URL of the API's endpoint at `path`, if the URL crate renders one.
pub open spec fn flux_api_url(path: Seq<char>) -> Option<Seq<char>> {
    url_join_text(flux_api_base_url(), path)
}

pub fn flux_api_endpoint(path: &str) -> (url: Option<String>)
    ensures
        callback_view(url) == flux_api_url(path@),
{
    url_join("https://api.runonflux.io", path)
}

/// What the host hands to the proxy canister to have a request performed.
pub fn http_request_endpoint_args(
    url: String,
    method: HttpMethod,
    headers: Vec<HttpHeader>,
    body: Option<Vec<u8>>,
    callback_method_name: Option<String>,
    timeout_ms: Option<HttpRequestTimeoutMs>,
) -> (args: HttpRequestEndpointArgs)
    ensures
        args@ == (HttpRequestEndpointArgsView {
            request: HttpRequestView {
                url: url@,
                method,
                headers: headers_view(headers@),
                body: body_view(body),
            },
            timeout_ms,
            callback_method_name: callback_view(callback_method_name),
        }),
{
    HttpRequestEndpointArgs {
        request: HttpRequest { url, method, headers, body },
        timeout_ms,
        callback_method_name,
    }
}

/// The response that a handler goes on with: the one of a request that
/// was performed and that the API answered with the status 200.
pub open spec fn answered(res: HttpResultView) -> Option<HttpResponseView> {
    match res {
        HttpResultView::Success(response) => if response.status == 200 {
            Some(response)
        } else {
            None
        },
        HttpResultView::Failure(_) => None,
    }
}

pub fn successful_response(res: HttpResult) -> (response: Option<HttpResponse>)
    ensures
        match answered(res@) {
            Some(r) => response is Some && response->0@ == r,
            None => response is None,
        },
{
    match res {
        HttpResult::Success(response) => {
            if response.status != 200 {
                return None;
            }
            Some(response)
        },
        HttpResult::Failure(_) => None,
    }
}

/// The serialization of the URL `base` with `params` appended to its query,
/// if `base` is a URL.
pub uninterp spec fn url_with_params_text(
    base: Seq<char>,
    params: Seq<(Seq<char>, Seq<char>)>,
) -> Option<Seq<char>>;

/// The pairs as specifications see them.
pub open spec fn params_view(params: Seq<(String, String)>) -> Seq<(Seq<char>, Seq<char>)> {
    Seq::new(params.len(), |i: int| (params[i].0@, params[i].1@))
}

/// `Url::parse_with_params` of the crate url, read out with `to_string`:
/// the serialization of the URL that `base` is, with each pair of `params`
/// appended to its query in the encoding of web forms; nothing if `base`
/// does not parse.
#[verifier::external_body]
pub(crate) fn url_with_params(base: &str, params: &Vec<(String, String)>) -> (text: Option<String>)
    ensures
        match url_with_params_text(base@, params_view(params@)) {
            Some(t) => text is Some && text->0@ == t,
            None => text is None,
        },
{
    url::Url::parse_with_params(base, params).ok().map(|u| u.to_string())
}

/// Where `c` stands first in `s` at or after `from`; the length of `s` if
/// it does not.
pub open spec fn index_of_char(s: Seq<char>, c: char, from: int) -> int
    decreases s.len() - from,
{
    if from < 0 || from >= s.len() {
        s.len() as int
    } else if s[from] == c {
        from
    } else {
        index_of_char(s, c, from + 1)
    }
}

/// What stands between the first question mark of `s` and the next one,
/// or the end of `s`; nothing if `s` holds no question mark.
pub open spec fn second_part(s: Seq<char>) -> Option<Seq<char>> {
    let first = index_of_char(s, '?', 0);
    if first >= s.len() {
        None
    } else {
        Some(s.subrange(first + 1, index_of_char(s, '?', first + 1)))
    }
}

fn find_char(s: &str, c: char, from: usize) -> (at: usize)
    requires
        from <= s@.len(),
    ensures
        at == index_of_char(s@, c, from as int),
        from <= at <= s@.len(),
{
    let len = s.unicode_len();
    let mut i: usize = from;
    while i < len
        invariant
            from <= i <= len,
            len == s@.len(),
            index_of_char(s@, c, from as int) == index_of_char(s@, c, i as int),
        decreases len - i,
    {
        if s.get_char(i) == c {
            return i;
        }
        i += 1;
    }
    i
}

/// The second of the parts that question marks split `text` into.
pub fn second_part_of(text: &str) -> (part: Option<String>)
    ensures
        match second_part(text@) {
            Some(p) => part is Some && part->0@ == p,
            None => part is None,
        },
{
    let len = text.unicode_len();
    let first = find_char(text, '?', 0);
    if first >= len {
        return None;
    }
    let next = find_char(text, '?', first + 1);
    Some(text.substring_char(first + 1, next).to_owned())
}

pub struct FluxStateView {
    pub zelid_auth_header: Option<HttpHeaderView>,
    pub flux_balance: Option<i32>,
}

pub struct FluxState {
    pub zelid_auth_header: Option<HttpHeader>,
    pub flux_balance: Option<i32>,
}

impl View for FluxState {
    type V = FluxStateView;

    open spec fn view(&self) -> FluxStateView {
        FluxStateView {
            zelid_auth_header: match self.zelid_auth_header {
                Some(h) => Some(h@),
                None => None,
            },
            flux_balance: self.flux_balance,
        }
    }
}

impl Default for FluxState {
    fn default() -> (state: Self)
        ensures
            state@ == (FluxStateView { zelid_auth_header: None, flux_balance: None }),
    {
        FluxState { zelid_auth_header: None, flux_balance: None }
    }
}

/// The pairs that make up the value of the authentication header.
pub open spec fn zelidauth_params(
    zelid: Seq<char>,
    login_phrase: Seq<char>,
    signature: Seq<char>,
) -> Seq<(Seq<char>, Seq<char>)> {
    seq![("zelid"@, zelid), ("signature"@, signature), ("loginPhrase"@, login_phrase)]
}

/// The value of the authentication header for a verified login: the pairs
/// as the query of a URL, if the URL crate renders one.
pub open spec fn zelidauth_value(
    zelid: Seq<char>,
    login_phrase: Seq<char>,
    signature: Seq<char>,
) -> Option<Seq<char>> {
    match url_with_params_text(
        "http://dummy.com"@,
        zelidauth_params(zelid, login_phrase, signature),
    ) {
        Some(text) => second_part(text),
        None => None,
    }
}

impl FluxState {
    pub fn set_auth_header(&mut self, zelid_auth: String)
        ensures
            final(self)@.zelid_auth_header == Some(zelidauth_header(zelid_auth@)),
            final(self)@.flux_balance == old(self)@.flux_balance,
    {
        self.zelid_auth_header = Some(
            HttpHeader { name: "zelidauth".to_owned(), value: zelid_auth },
        );
    }

    /// Sets the authentication header from the query of the URL that
    /// `url_text` spells, which must have one.
    pub fn set_auth_header_from_url_text(&mut self, url_text: &str)
        requires
            second_part(url_text@) is Some,
        ensures
            final(self)@.zelid_auth_header == Some(zelidauth_header(second_part(url_text@)->0)),
            final(self)@.flux_balance == old(self)@.flux_balance,
    {
        match second_part_of(url_text) {
            Some(zelid_auth_header) => {
                self.set_auth_header(zelid_auth_header);
            },
            None => {},
        }
    }

    /// Sets the authentication header from what a verified login returned.
    /// Says whether it did: without a value to set, nothing changes.
    pub fn set_auth_header_from_verifylogin_response_data(
        &mut self,
        zelid: String,
        login_phrase: String,
        signature: String,
    ) -> (done: bool)
        ensures
            done == (zelidauth_value(zelid@, login_phrase@, signature@) is Some),
            done ==> final(self)@.zelid_auth_header == Some(
                zelidauth_header(zelidauth_value(zelid@, login_phrase@, signature@)->0),
            ),
            !done ==> final(self)@.zelid_auth_header == old(self)@.zelid_auth_header,
            final(self)@.flux_balance == old(self)@.flux_balance,
    {
        let mut params: Vec<(String, String)> = Vec::new();
        params.push(("zelid".to_owned(), zelid));
        params.push(("signature".to_owned(), signature));
        params.push(("loginPhrase".to_owned(), login_phrase));
        assert(params_view(params@) =~= zelidauth_params(zelid@, login_phrase@, signature@));
        let text = match url_with_params("http://dummy.com", &params) {
            Some(text) => text,
            None => {
                return false;
            },
        };
        match second_part_of(text.as_str()) {
            Some(zelid_auth_header) => {
                self.set_auth_header(zelid_auth_header);
                true
            },
            None => false,
        }
    }

    pub fn get_zelid_auth_header(&self) -> (header: Option<HttpHeader>)
        ensures
            match self@.zelid_auth_header {
                Some(h) => header is Some && header->0@ == h,
                None => header is None,
            },
    {
        match &self.zelid_auth_header {
            Some(h) => Some(h.clone()),
            None => None,
        }
    }

    /// The authentication header. It must have been set.
    pub fn get_zelid_auth_header_or_trap(&self) -> (header: HttpHeader)
        requires
            self@.zelid_auth_header is Some,
        ensures
            Some(header@) == self@.zelid_auth_header,
    {
        match &self.zelid_auth_header {
            Some(h) => h.clone(),
            None => HttpHeader { name: String::new(), value: String::new() },
        }
    }

    pub fn reset_auth_header(&mut self)
        ensures
            final(self)@.zelid_auth_header is None,
            final(self)@.flux_balance == old(self)@.flux_balance,
    {
        self.zelid_auth_header = None;
    }

    pub fn set_balance(&mut self, flux_balance: i32)
        ensures
            final(self)@.flux_balance == Some(flux_balance),
            final(self)@.zelid_auth_header == old(self)@.zelid_auth_header,
    {
        self.flux_balance = Some(flux_balance);
    }

    /// Sets the balance from the data of a balance response, which must
    /// hold one.
    pub fn set_balance_from_getaddressbalance_response(&mut self, data: Option<i32>)
        requires
            data is Some,
        ensures
            final(self)@.flux_balance == data,
            final(self)@.zelid_auth_header == old(self)@.zelid_auth_header,
    {
        match data {
            Some(balance) => {
                self.set_balance(balance);
            },
            None => {},
        }
    }

    pub fn get_balance(&self) -> (balance: Option<i32>)
        ensures
            balance == self@.flux_balance,
    {
        self.flux_balance
    }

    /// Whether a balance above zero is known.
    pub fn check_balance(&self) -> (positive: bool)
        ensures
            positive == (self@.flux_balance is Some && self@.flux_balance->0 > 0),
    {
        match self.flux_balance {
            Some(balance) => balance > 0,
            None => false,
        }
    }
}

/// The balance that was fetched last, in the smallest unit.
pub fn get_balance(state: &FluxState) -> (balance: Option<i32>)
    ensures
        balance == state@.flux_balance,
{
    state.get_balance()
}

} // verus!
