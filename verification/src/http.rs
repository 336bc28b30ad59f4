//! The HTTP client library as this crate sees it: opaque values, and what
//! is relied on of the few calls made into it.

use vstd::prelude::*;

verus! {

/// `reqwest::Error`, kept as the cause of a construction failure.
#[verifier::external_type_specification]
#[verifier::external_body]
pub struct ExReqwestError(reqwest::Error);

/// `reqwest::Proxy`, an outbound proxy that passed validation.
#[verifier::external_type_specification]
#[verifier::external_body]
pub struct ExProxy(reqwest::Proxy);

/// `reqwest::ClientBuilder`, the settings of a client under construction.
#[verifier::external_type_specification]
#[verifier::external_body]
pub struct ExClientBuilder(reqwest::ClientBuilder);

/// Whether `reqwest::Proxy::all` accepts `url` as a proxy address.
pub uninterp spec fn proxy_url_accepted(url: Seq<char>) -> bool;

/// Calls `reqwest::Proxy::all`, which parses `url` (retrying with `http://`
/// in front where it has no scheme) and fails unless the result is an
/// `http` or `https` URL. Whether it succeeds depends on `url` alone.
#[verifier::external_body]
pub(crate) fn parse_proxy(url: &str) -> (r: Result<reqwest::Proxy, reqwest::Error>)
    ensures
        r is Ok <==> proxy_url_accepted(url@),
{
    reqwest::Proxy::all(url)
}

/// Calls `reqwest::Client::builder`, which starts from the default settings.
#[verifier::external_body]
pub(crate) fn new_builder() -> reqwest::ClientBuilder {
    reqwest::Client::builder()
}

/// Calls `reqwest::ClientBuilder::gzip`, which records whether compressed
/// responses are accepted.
#[verifier::external_body]
pub(crate) fn builder_with_gzip(builder: reqwest::ClientBuilder, enable: bool) -> reqwest::ClientBuilder {
    builder.gzip(enable)
}

/// Calls `reqwest::ClientBuilder::timeout` with a duration of
/// `timeout_millis` milliseconds.
#[verifier::external_body]
pub(crate) fn builder_with_timeout(builder: reqwest::ClientBuilder, timeout_millis: u64) -> reqwest::ClientBuilder {
    builder.timeout(std::time::Duration::from_millis(timeout_millis))
}

/// Calls `reqwest::ClientBuilder::user_agent`. A text that is no header
/// value is remembered as an error that surfaces when the client is built.
#[verifier::external_body]
pub(crate) fn builder_with_user_agent(builder: reqwest::ClientBuilder, agent: &str) -> reqwest::ClientBuilder {
    builder.user_agent(agent)
}

/// Calls `reqwest::ClientBuilder::proxy`, which adds `proxy` to the proxies
/// of the client and turns the system proxy off.
#[verifier::external_body]
pub(crate) fn builder_with_proxy(builder: reqwest::ClientBuilder, proxy: reqwest::Proxy) -> reqwest::ClientBuilder {
    builder.proxy(proxy)
}

/// The texts that `reqwest::header::HeaderValue::from_str` accepts: those
/// without control characters other than the horizontal tab.
pub open spec fn header_text(value: Seq<char>) -> bool {
    forall|i: int| 0 <= i < value.len() ==> header_char(#[trigger] value[i])
}

/// A character that may occur in a header value.
pub open spec fn header_char(c: char) -> bool {
    (c as u32 >= 32 && c as u32 != 127) || c as u32 == 9
}

/// Calls `reqwest::header::HeaderValue::from_str`, which checks every byte
/// of `value` and rejects those below 32 other than the tab, and 127.
#[verifier::external_body]
pub(crate) fn header_accepts(value: &str) -> (ok: bool)
    ensures
        ok == header_text(value@),
{
    reqwest::header::HeaderValue::from_str(value).is_ok()
}

} // verus!
