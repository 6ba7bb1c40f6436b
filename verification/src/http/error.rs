use vstd::prelude::*;

use crate::common::text::{parse_u64, spec_parse_u64};

verus! {

/// Failure of a REST call.
#[derive(Clone, Debug)]
pub enum AlpacaHttpError {
    Transport(String),
    Authentication(String),
    /// HTTP 429; the venue's suggested wait in seconds, when it sent one.
    RateLimited { retry_after_secs: Option<u64> },
    Http { status: u16, message: String },
    Decode(String),
}

/// The text that `String::from_utf8_lossy` gives for the bytes.
pub uninterp spec fn utf8_lossy_text(bytes: Seq<u8>) -> Seq<char>;

/// Decodes a response body with `String::from_utf8_lossy`.
///
/// The contract claims what std documents: valid UTF-8 is decoded as is. How invalid sequences
/// are replaced is left to the name.
#[verifier::external_body]
fn utf8_lossy(bytes: &[u8]) -> (r: String)
    ensures
        r@ == utf8_lossy_text(bytes@),
        vstd::utf8::valid_utf8(bytes@) ==> r@ == vstd::utf8::decode_utf8(bytes@),
{
    String::from_utf8_lossy(bytes).into_owned()
}

/// The error for a non-success status, with the body as its message.
pub open spec fn spec_from_http_status(status: u16, body: Seq<u8>) -> ErrorView {
    if status == 401 || status == 403 {
        ErrorView::Authentication(utf8_lossy_text(body))
    } else if status == 429 {
        ErrorView::RateLimited { retry_after_secs: None }
    } else {
        ErrorView::Http { status, message: utf8_lossy_text(body) }
    }
}

/// Mathematical view of an [`AlpacaHttpError`].
pub enum ErrorView {
    Transport(Seq<char>),
    Authentication(Seq<char>),
    RateLimited { retry_after_secs: Option<u64> },
    Http { status: u16, message: Seq<char> },
    Decode(Seq<char>),
}

pub open spec fn error_view(e: AlpacaHttpError) -> ErrorView {
    match e {
        AlpacaHttpError::Transport(m) => ErrorView::Transport(m@),
        AlpacaHttpError::Authentication(m) => ErrorView::Authentication(m@),
        AlpacaHttpError::RateLimited { retry_after_secs } => ErrorView::RateLimited {
            retry_after_secs,
        },
        AlpacaHttpError::Http { status, message } => ErrorView::Http { status, message: message@ },
        AlpacaHttpError::Decode(m) => ErrorView::Decode(m@),
    }
}

/// The wait that the venue asks for after a 429: the `retry-after` header in seconds, else the
/// seconds left until the `x-ratelimit-reset` epoch second (never negative).
pub open spec fn spec_rate_limit_delay(
    retry_after: Option<Seq<char>>,
    ratelimit_reset: Option<Seq<char>>,
    now_secs: Option<u64>,
) -> Option<u64> {
    if retry_after is Some && spec_parse_u64(retry_after->0) is Some {
        spec_parse_u64(retry_after->0)
    } else if ratelimit_reset is Some && spec_parse_u64(ratelimit_reset->0) is Some
        && now_secs is Some {
        let reset = spec_parse_u64(ratelimit_reset->0)->0;
        Some(
            if reset >= now_secs->0 {
                (reset - now_secs->0) as u64
            } else {
                0
            },
        )
    } else {
        None
    }
}

pub open spec fn opt_str(s: Option<&str>) -> Option<Seq<char>> {
    match s {
        Some(v) => Some(v@),
        None => None,
    }
}

/// Whether a failed read is worth retrying.
pub open spec fn spec_retryable(e: ErrorView) -> bool {
    match e {
        ErrorView::Transport(_) => true,
        ErrorView::RateLimited { .. } => true,
        ErrorView::Http { status, .. } => 500 <= status <= 599,
        _ => false,
    }
}

/// Whether a failed write may still have reached the venue.
pub open spec fn spec_ambiguous_write(e: ErrorView) -> bool {
    match e {
        ErrorView::Transport(_) => true,
        ErrorView::Http { status, .. } => 500 <= status <= 599,
        _ => false,
    }
}

/// How responses are classified: rejected credentials are never retried and never
/// ambiguous; rate limits are retried but are no ambiguous write; server errors are both;
/// every other status is a definitive failure.
pub proof fn lemma_status_classification(status: u16, body: Seq<u8>)
    ensures
        (status == 401 || status == 403) ==> !spec_retryable(spec_from_http_status(status, body))
            && !spec_ambiguous_write(spec_from_http_status(status, body)),
        status == 429 ==> spec_retryable(spec_from_http_status(status, body))
            && !spec_ambiguous_write(spec_from_http_status(status, body)),
        500 <= status <= 599 ==> spec_retryable(spec_from_http_status(status, body))
            && spec_ambiguous_write(spec_from_http_status(status, body)),
        !(status == 401 || status == 403 || status == 429 || 500 <= status <= 599) ==> !spec_retryable(
            spec_from_http_status(status, body),
        ) && !spec_ambiguous_write(spec_from_http_status(status, body)),
{
}

/// An ambiguous write is always a retryable read error: ambiguity only comes from failures
/// that say nothing about the request.
pub proof fn lemma_ambiguous_is_retryable(e: ErrorView)
    ensures
        spec_ambiguous_write(e) ==> spec_retryable(e),
{
}

/// The suggested wait of a 429 response; `now_secs` is the wall clock in epoch seconds, `None`
/// when the clock is before the epoch.
pub fn rate_limit_delay(
    retry_after: Option<&str>,
    ratelimit_reset: Option<&str>,
    now_secs: Option<u64>,
) -> (r: Option<u64>)
    ensures
        r == spec_rate_limit_delay(opt_str(retry_after), opt_str(ratelimit_reset), now_secs),
{
    if let Some(value) = retry_after {
        if let Some(seconds) = parse_u64(value) {
            return Some(seconds);
        }
    }
    let reset = match ratelimit_reset {
        Some(value) => match parse_u64(value) {
            Some(v) => v,
            None => return None,
        },
        None => return None,
    };
    let now = match now_secs {
        Some(n) => n,
        None => return None,
    };
    Some(reset.saturating_sub(now))
}

impl AlpacaHttpError {
    /// Classifies a non-success status: 401 and 403 fail authentication, 429 is a rate limit
    /// and every other status keeps its code and body.
    pub fn from_http_status(status: u16, body: &[u8]) -> (r: AlpacaHttpError)
        ensures
            error_view(r) == spec_from_http_status(status, body@),
    {
        if status == 401 || status == 403 {
            AlpacaHttpError::Authentication(utf8_lossy(body))
        } else if status == 429 {
            AlpacaHttpError::RateLimited { retry_after_secs: None }
        } else {
            AlpacaHttpError::Http { status, message: utf8_lossy(body) }
        }
    }

    /// Classifies a non-success response; a 429 carries the venue's suggested wait.
    pub fn from_http_response(
        status: u16,
        body: &[u8],
        retry_after: Option<&str>,
        ratelimit_reset: Option<&str>,
        now_secs: Option<u64>,
    ) -> (r: AlpacaHttpError)
        ensures
            error_view(r) == (if status != 429 {
                spec_from_http_status(status, body@)
            } else {
                ErrorView::RateLimited {
                    retry_after_secs: spec_rate_limit_delay(
                        opt_str(retry_after),
                        opt_str(ratelimit_reset),
                        now_secs,
                    ),
                }
            }),
    {
        if status != 429 {
            return AlpacaHttpError::from_http_status(status, body);
        }
        AlpacaHttpError::RateLimited {
            retry_after_secs: rate_limit_delay(retry_after, ratelimit_reset, now_secs),
        }
    }

    /// Reads are retried after transport failures, rate limits and server errors.
    pub fn is_retryable(&self) -> (r: bool)
        ensures
            r == spec_retryable(error_view(*self)),
    {
        match self {
            AlpacaHttpError::Transport(_) => true,
            AlpacaHttpError::RateLimited { .. } => true,
            AlpacaHttpError::Http { status, .. } => 500 <= *status && *status <= 599,
            _ => false,
        }
    }

    /// Whether a failed trading write may still have reached the venue: transport failures and
    /// server errors are ambiguous, 4xx responses are definitive rejections.
    pub fn is_ambiguous_write(&self) -> (r: bool)
        ensures
            r == spec_ambiguous_write(error_view(*self)),
    {
        match self {
            AlpacaHttpError::Transport(_) => true,
            AlpacaHttpError::Http { status, .. } => 500 <= *status && *status <= 599,
            _ => false,
        }
    }

    /// The suggested wait of a rate limit, in seconds.
    pub fn retry_after(&self) -> (r: Option<u64>)
        ensures
            r == (match *self {
                AlpacaHttpError::RateLimited { retry_after_secs } => retry_after_secs,
                _ => None,
            }),
    {
        match self {
            AlpacaHttpError::RateLimited { retry_after_secs } => *retry_after_secs,
            _ => None,
        }
    }
}

} // verus!
