//! Feedback: checking a rating, storing it, and answering the form that
//! submits one.
//!
//! A rating is taken in two steps: the page it is about is recorded for the
//! campaign (a page seen before is fine), then the rating is stored under a
//! fresh identifier, tried again while identifiers clash.
use vstd::prelude::*;
use vstd::utf8::encode_utf8;

use crate::errors::{is_unique_violation, unique_violation, ServiceError, StoreError};
use crate::ident::{hyphenated, id_text};
use crate::pages::errors::ErrorPage;

pub mod routes;

verus! {

/// The longest page URL, in bytes, that a rating may name.
pub const URL_MAX_LENGTH: usize = 2048;

/// A rating of a page.
#[derive(Clone, Debug, PartialEq, Eq)]
pub struct RatingReq {
    pub helpful: bool,
    pub description: String,
    pub page_url: String,
}

/// The identifier of a stored rating.
#[derive(Clone, Debug, PartialEq, Eq)]
pub struct RatingResp {
    pub uuid: String,
}

/// Where the rating form sends the browser afterwards, if anywhere.
#[derive(Clone, Debug, PartialEq, Eq)]
pub struct State {
    pub redirect_to: Option<String>,
}

/// The unique constraint on the pages recorded for a campaign.
pub open spec fn page_url_key() -> Seq<char> {
    "kaizen_campaign_pages_page_url_key"@
}

/// The unique constraint that a clash of rating identifiers reports.
pub open spec fn rating_id_key() -> Seq<char> {
    "kaizen_campaign_uuid_key"@
}

/// The length in bytes of the UTF-8 form of `s`.
pub open spec fn utf8_len(s: Seq<char>) -> nat {
    encode_utf8(s).len()
}

/// Calls `str::len`, which gives the number of bytes of the UTF-8 form of
/// `s`; a string held in memory has fewer bytes than `usize` can count.
#[verifier::external_body]
fn byte_len(s: &str) -> (n: usize)
    ensures
        n as nat == utf8_len(s@),
{
    s.len()
}

/// Whether `url::Url::parse` accepts `s` as an absolute URL.
pub uninterp spec fn url_parses(s: Seq<char>) -> bool;

/// Calls `url::Url::parse(s)` and tells whether it succeeded. What it accepts
/// is named by `url_parses`; the contract adds one fact that the crate's
/// parser shows: without a `:` there is no scheme, so with no base URL the
/// input is refused.
#[verifier::external_body]
fn url_is_absolute(s: &str) -> (ok: bool)
    ensures
        ok == url_parses(s@),
        !s@.contains(':') ==> !ok,
{
    url::Url::parse(s).is_ok()
}

/// How a rating is judged, given whether its page URL parses: a URL longer
/// than `URL_MAX_LENGTH` bytes is `URLTooLong`, else one that does not parse
/// is `NotAUrl`.
pub open spec fn rating_verdict(page_url: Seq<char>, parses: bool) -> Result<(), ServiceError> {
    if utf8_len(page_url) > URL_MAX_LENGTH {
        Err(ServiceError::URLTooLong)
    } else if !parses {
        Err(ServiceError::NotAUrl)
    } else {
        Ok(())
    }
}

/// A rating is judged on its page URL alone, through two facts: its length
/// in bytes and whether it parses. Within the limit a URL that parses is
/// accepted and one that does not is `NotAUrl`; past the limit it is
/// `URLTooLong` whether it parses or not.
pub proof fn lemma_rating_verdict(page_url: Seq<char>, parses: bool)
    ensures
        utf8_len(page_url) <= URL_MAX_LENGTH && parses ==> rating_verdict(page_url, parses) == Ok::<
            (),
            ServiceError,
        >(()),
        utf8_len(page_url) <= URL_MAX_LENGTH && !parses ==> rating_verdict(page_url, parses)
            == Err::<(), ServiceError>(ServiceError::NotAUrl),
        utf8_len(page_url) > URL_MAX_LENGTH ==> rating_verdict(page_url, parses) == Err::<
            (),
            ServiceError,
        >(ServiceError::URLTooLong),
        forall|other: Seq<char>|
            utf8_len(other) == utf8_len(page_url) ==> #[trigger] rating_verdict(other, parses)
                == rating_verdict(page_url, parses),
{
}

/// Judges a rating, given whether its page URL parses.
pub fn check_rating_with(req: &RatingReq, parses: bool) -> (r: Result<(), ServiceError>)
    ensures
        r == rating_verdict(req.page_url@, parses),
        utf8_len(req.page_url@) <= URL_MAX_LENGTH && parses ==> r == Ok::<(), ServiceError>(()),
        utf8_len(req.page_url@) <= URL_MAX_LENGTH && !parses ==> r == Err::<(), ServiceError>(
            ServiceError::NotAUrl,
        ),
        utf8_len(req.page_url@) > URL_MAX_LENGTH ==> r == Err::<(), ServiceError>(
            ServiceError::URLTooLong,
        ),
{
    proof {
        lemma_rating_verdict(req.page_url@, parses);
    }
    if byte_len(req.page_url.as_str()) > URL_MAX_LENGTH {
        Err(ServiceError::URLTooLong)
    } else if !parses {
        Err(ServiceError::NotAUrl)
    } else {
        Ok(())
    }
}

/// Judges a rating; the URL parser is asked only about a URL within the
/// length limit.
pub fn check_rating(req: &RatingReq) -> (r: Result<(), ServiceError>)
    ensures
        r == rating_verdict(req.page_url@, url_parses(req.page_url@)),
        utf8_len(req.page_url@) > URL_MAX_LENGTH ==> r == Err::<(), ServiceError>(
            ServiceError::URLTooLong,
        ),
        utf8_len(req.page_url@) <= URL_MAX_LENGTH && !req.page_url@.contains(':') ==> r == Err::<
            (),
            ServiceError,
        >(ServiceError::NotAUrl),
        utf8_len(req.page_url@) <= URL_MAX_LENGTH && url_parses(req.page_url@) ==> r == Ok::<
            (),
            ServiceError,
        >(()),
        utf8_len(req.page_url@) <= URL_MAX_LENGTH && !url_parses(req.page_url@) ==> r == Err::<
            (),
            ServiceError,
        >(ServiceError::NotAUrl),
{
    proof {
        lemma_rating_verdict(req.page_url@, url_parses(req.page_url@));
    }
    if byte_len(req.page_url.as_str()) > URL_MAX_LENGTH {
        Err(ServiceError::URLTooLong)
    } else {
        let parses = url_is_absolute(req.page_url.as_str());
        check_rating_with(req, parses)
    }
}

/// What follows in taking a rating.
#[derive(Clone, Debug, PartialEq, Eq)]
pub enum RatingStep {
    /// Record the rated page for the campaign.
    InsertPage,
    /// Store the rating under a fresh identifier.
    InsertFeedback,
    /// The rating is stored; this is the reply.
    Reply(RatingResp),
    /// The rating is refused with this error.
    Reject(ServiceError),
}

/// The first step: a rating that fails its checks is refused before the
/// store is touched; any other goes on to record its page.
pub fn rating_start(req: &RatingReq) -> (step: RatingStep)
    ensures
        match rating_verdict(req.page_url@, url_parses(req.page_url@)) {
            Ok(()) => step is InsertPage,
            Err(e) => step == RatingStep::Reject(e),
        },
        utf8_len(req.page_url@) <= URL_MAX_LENGTH && url_parses(req.page_url@) ==> step is InsertPage,
        utf8_len(req.page_url@) > URL_MAX_LENGTH ==> step == RatingStep::Reject(
            ServiceError::URLTooLong,
        ),
{
    match check_rating(req) {
        Ok(()) => RatingStep::InsertPage,
        Err(e) => RatingStep::Reject(e),
    }
}

/// After recording the page: the page having been recorded before, or a
/// failure that is not the database's, does not stop the rating; any other
/// database refusal does.
pub fn rating_after_page(outcome: Result<(), StoreError>) -> (step: RatingStep)
    ensures
        match outcome {
            Err(e) => if e is Database && !is_unique_violation(e, page_url_key()) {
                step == RatingStep::Reject(ServiceError::Store(e))
            } else {
                step is InsertFeedback
            },
            Ok(()) => step is InsertFeedback,
        },
{
    match outcome {
        Ok(()) => RatingStep::InsertFeedback,
        Err(e) => {
            let seen = unique_violation(&e, "kaizen_campaign_pages_page_url_key");
            match e {
                StoreError::Other => RatingStep::InsertFeedback,
                StoreError::Database { .. } => {
                    if seen {
                        RatingStep::InsertFeedback
                    } else {
                        RatingStep::Reject(ServiceError::Store(e))
                    }
                },
            }
        },
    }
}

/// After an attempt to store the rating under `id`: a stored rating is
/// answered with its identifier; a clash on the identifier, or a failure that
/// is not the database's, is tried again; any other database refusal ends
/// the request.
pub fn rating_after_feedback(outcome: Result<(), StoreError>, id: u128) -> (step: RatingStep)
    ensures
        match outcome {
            Ok(()) => step matches RatingStep::Reply(resp) && resp.uuid@ == hyphenated(id),
            Err(e) => if is_unique_violation(e, rating_id_key()) || e is Other {
                step is InsertFeedback
            } else {
                step == RatingStep::Reject(ServiceError::Store(e))
            },
        },
{
    match outcome {
        Ok(()) => RatingStep::Reply(RatingResp { uuid: id_text(id) }),
        Err(e) => {
            let clash = unique_violation(&e, "kaizen_campaign_uuid_key");
            match e {
                StoreError::Other => RatingStep::InsertFeedback,
                StoreError::Database { .. } => {
                    if clash {
                        RatingStep::InsertFeedback
                    } else {
                        RatingStep::Reject(ServiceError::Store(e))
                    }
                },
            }
        },
    }
}

/// The page shown after a rating form: with an error box when the rating
/// was refused.
#[derive(Clone, Copy, Debug, PartialEq, Eq)]
pub struct FeedbackSuccess<'a> {
    pub error: Option<ErrorPage<'a>>,
}

impl<'a> Default for FeedbackSuccess<'a> {
    fn default() -> (page: FeedbackSuccess<'a>)
        ensures
            page.error is None,
    {
        FeedbackSuccess { error: None }
    }
}

impl<'a> FeedbackSuccess<'a> {
    pub fn new(title: &'a str, message: &'a str) -> (page: FeedbackSuccess<'a>)
        ensures
            page.error == Some(ErrorPage { title, message }),
    {
        FeedbackSuccess { error: Some(ErrorPage::new(title, message)) }
    }
}

/// The answer to a rating form: the error to show, if the rating was
/// refused, and where to send the browser, if the form asked for it.
#[derive(Clone, Debug, PartialEq, Eq)]
pub struct FormReply {
    pub error: Option<ServiceError>,
    pub location: Option<String>,
}

/// Answers a rating form from the rating's outcome and the form's state.
pub fn rating_form_reply(outcome: Result<RatingResp, ServiceError>, state: State) -> (reply:
    FormReply)
    ensures
        reply.error == match outcome {
            Ok(_) => None::<ServiceError>,
            Err(e) => Some(e),
        },
        reply.location == state.redirect_to,
{
    let error = match outcome {
        Ok(_) => None,
        Err(e) => Some(e),
    };
    FormReply { error, location: state.redirect_to }
}

} // verus!
