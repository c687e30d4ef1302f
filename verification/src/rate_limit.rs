//! Per-client rate limiting: whose budget a request draws on, the budgets
//! of the expensive endpoints, and the answer to a request over budget.
use vstd::prelude::*;
use crate::error::{header_value, merge_headers, pairs_view, response_for, ErrorResponse, WebError};
use crate::ip::{ip_value, parse_client_ip, parse_ip, ClientIp};

verus! {

/// Sustained rate of the `/dump` write tier: one write per this many
/// milliseconds.
pub const DUMP_TIER_PER_MS: u64 = 1_000;

/// Burst size of the `/dump` write tier.
pub const DUMP_TIER_BURST: u32 = 3;

/// Sustained rate of the Unsplash tier: one upstream call per this many
/// milliseconds.
pub const UNSPLASH_TIER_PER_MS: u64 = 200;

/// Burst size of the Unsplash tier.
pub const UNSPLASH_TIER_BURST: u32 = 5;

/// How often, in seconds, expired entries are pruned from a limiter store.
pub const PRUNE_EVERY_SECS: u64 = 60;

/// The header set by the Fly proxy, which clients cannot spoof.
pub const FLY_CLIENT_IP_HEADER: &'static str = "fly-client-ip";

/// No client address could be found for a request.
#[derive(Debug, Clone, Copy, PartialEq, Eq)]
pub enum KeyError {
    UnableToExtractKey,
}

/// Reads `Fly-Client-IP` set by the Fly Proxy, which cannot be spoofed.
/// Falls back to the TCP peer address for local development.
///
/// `X-Forwarded-For` is deliberately ignored because Fly Proxy appends to it,
/// making it trivially spoofable by clients.
#[derive(Debug, Clone, Copy)]
pub struct FlyClientIpKeyExtractor;

/// The key a request is limited under: the address in the `Fly-Client-IP`
/// header when that reads as an IP address, else the peer address.
pub open spec fn client_key(fly_client_ip: Option<Seq<char>>, peer: Option<ClientIp>) -> Option<(bool, Seq<nat>)> {
    match fly_client_ip {
        Some(h) if parse_ip(h) is Some => parse_ip(h),
        _ => match peer {
            Some(p) => Some(ip_value(p)),
            None => None,
        },
    }
}

impl FlyClientIpKeyExtractor {
    /// The address whose budget a request draws on. `fly_client_ip` is the
    /// text of the request's first `Fly-Client-IP` header, if it has one
    /// made of visible ASCII; `peer` is the address of the TCP peer, if
    /// known. No other header is consulted.
    pub fn extract(&self, fly_client_ip: Option<&str>, peer: Option<ClientIp>) -> (r: Result<ClientIp, KeyError>)
        ensures
            match client_key(
                match fly_client_ip {
                    Some(h) => Some(h@),
                    None => None,
                },
                peer,
            ) {
                Some(v) => r matches Ok(ip) && ip_value(ip) == v,
                None => r == Err::<ClientIp, KeyError>(KeyError::UnableToExtractKey),
            },
    {
        if let Some(h) = fly_client_ip {
            if let Some(ip) = parse_client_ip(h) {
                return Ok(ip);
            }
        }
        match peer {
            Some(p) => Ok(p),
            None => Err(KeyError::UnableToExtractKey),
        }
    }
}

/// Why the rate limiter turned a request away.
#[derive(Debug, Clone, Copy, PartialEq, Eq)]
pub enum LimitRejection {
    /// Over budget; the budget allows another request after `wait_time`
    /// seconds.
    TooManyRequests { wait_time: u64 },
    /// The limiter could not do its work (no key, or another failure).
    Other,
}

/// The answer to a rejected request: an exhausted budget gets the same 429
/// as `WebError::TooManyRequests`, with the limiter's own headers inserted
/// over its headers; any other limiter failure is a 500 without headers.
pub open spec fn rejection_response(rejection: LimitRejection, limiter_headers: Seq<(Seq<char>, Seq<char>)>) -> (u16, Seq<char>, Seq<(Seq<char>, Seq<char>)>) {
    match rejection {
        LimitRejection::TooManyRequests { wait_time } => {
            let base = response_for(WebError::TooManyRequests { retry_after_secs: wait_time });
            (base.0, base.1, merge_headers(base.2, limiter_headers))
        },
        LimitRejection::Other => (500u16, "internal server error"@, Seq::empty()),
    }
}

/// Maps a limiter rejection through the `WebError` chokepoint so middleware
/// and handlers share one 429 format. `limiter_headers` are the headers the
/// limiter attached to the rejection (`X-RateLimit-*` and the like), as
/// lower-case names with their first values, in the limiter's order.
pub fn rate_limit_error_response(rejection: LimitRejection, limiter_headers: &Vec<(String, String)>) -> (r: ErrorResponse)
    ensures
        r@ == rejection_response(rejection, pairs_view(limiter_headers@)),
{
    match rejection {
        LimitRejection::TooManyRequests { wait_time } => WebError::TooManyRequests {
            retry_after_secs: wait_time,
        }.into_response().with_headers(limiter_headers),
        LimitRejection::Other => {
            let r = ErrorResponse {
                status: 500,
                body: String::from_str("internal server error"),
                headers: Vec::new(),
            };
            assert(pairs_view(r.headers@) =~= Seq::<(Seq<char>, Seq<char>)>::empty());
            r
        },
    }
}

/// An exhausted budget is answered with the status and body of
/// `WebError::TooManyRequests`. Every header the limiter sets reaches the
/// response with the limiter's value, overriding `retry-after` too; when
/// the limiter sets no `retry-after`, that header reads back as the wait
/// time.
pub proof fn lemma_rejection_has_web_error_shape(wait_time: u64, limiter_headers: Seq<(Seq<char>, Seq<char>)>)
    ensures
        rejection_response(LimitRejection::TooManyRequests { wait_time }, limiter_headers).0 == 429,
        rejection_response(LimitRejection::TooManyRequests { wait_time }, limiter_headers).1 == response_for(
            WebError::TooManyRequests { retry_after_secs: wait_time },
        ).1,
        forall|n: Seq<char>| #[trigger] header_value(limiter_headers, n) is Some ==> header_value(
            rejection_response(LimitRejection::TooManyRequests { wait_time }, limiter_headers).2,
            n,
        ) == header_value(limiter_headers, n),
        forall|n: Seq<char>| #[trigger] header_value(limiter_headers, n) is None ==> header_value(
            rejection_response(LimitRejection::TooManyRequests { wait_time }, limiter_headers).2,
            n,
        ) == header_value(response_for(WebError::TooManyRequests { retry_after_secs: wait_time }).2, n),
        header_value(limiter_headers, "retry-after"@) is None ==> (header_value(
            rejection_response(LimitRejection::TooManyRequests { wait_time }, limiter_headers).2,
            "retry-after"@,
        ) matches Some(h) && crate::decimal::parse_unsigned(h, u64::MAX as nat) == Some(wait_time as nat)),
{
    let base = response_for(WebError::TooManyRequests { retry_after_secs: wait_time });
    assert forall|n: Seq<char>| #[trigger] header_value(limiter_headers, n) is Some implies header_value(
        rejection_response(LimitRejection::TooManyRequests { wait_time }, limiter_headers).2,
        n,
    ) == header_value(limiter_headers, n) by {
        crate::error::lemma_merge_headers_lookup(base.2, limiter_headers, n);
    }
    assert forall|n: Seq<char>| #[trigger] header_value(limiter_headers, n) is None implies header_value(
        rejection_response(LimitRejection::TooManyRequests { wait_time }, limiter_headers).2,
        n,
    ) == header_value(base.2, n) by {
        crate::error::lemma_merge_headers_lookup(base.2, limiter_headers, n);
    }
    crate::error::lemma_merge_headers_lookup(base.2, limiter_headers, "retry-after"@);
    assert(base.2.drop_last() =~= Seq::<(Seq<char>, Seq<char>)>::empty());
    crate::decimal::lemma_parse_decimal(wait_time as nat, u64::MAX as nat);
}

/// A `Fly-Client-IP` header that reads as an address decides the key, even
/// when the peer address is known; one that does not is ignored in favour
/// of the peer address.
pub proof fn lemma_fly_client_ip_preferred(header: Seq<char>, peer: Option<ClientIp>)
    ensures
        parse_ip(header) is Some ==> client_key(Some(header), peer) == parse_ip(header),
        parse_ip(header) is None ==> client_key(Some(header), peer) == client_key(None, peer),
{
}

} // verus!
