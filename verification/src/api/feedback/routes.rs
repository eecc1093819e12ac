//! Paths of the feedback API.
use vstd::prelude::*;

use crate::text::{lemma_replace_placeholder, replace, replace_all};

verus! {

/// The feedback API's paths; `{campaign_id}` stands for a campaign's identifier.
pub struct Feedback {
    pub rating: &'static str,
    pub scope: &'static str,
    pub rating_form: &'static str,
}

/// The path that takes a rating for the campaign `id`.
pub open spec fn rating_path(id: Seq<char>) -> Seq<char> {
    "/api/v1/feedback/"@ + id + "/rating"@
}

/// The path that takes a rating form for the campaign `id`.
pub open spec fn rating_form_path(id: Seq<char>) -> Seq<char> {
    "/api/v1/feedback/"@ + id + "/rating-form"@
}

/// Filling the placeholder of the feedback API's templates with an
/// identifier puts the identifier between the template's fixed parts.
pub proof fn lemma_feedback_paths(id: Seq<char>)
    ensures
        replace_all("/api/v1/feedback/{campaign_id}/rating"@, "{campaign_id}"@, id) == rating_path(
            id,
        ),
        replace_all("/api/v1/feedback/{campaign_id}/rating-form"@, "{campaign_id}"@, id)
            == rating_form_path(id),
{
    reveal_strlit("/api/v1/feedback/{campaign_id}/rating");
    reveal_strlit("/api/v1/feedback/{campaign_id}/rating-form");
    reveal_strlit("/api/v1/feedback/");
    reveal_strlit("{campaign_id}");
    reveal_strlit("/rating");
    reveal_strlit("/rating-form");
    let pre = "/api/v1/feedback/"@;
    let p = "{campaign_id}"@;
    assert("/api/v1/feedback/{campaign_id}/rating"@ =~= pre + p + "/rating"@);
    assert("/api/v1/feedback/{campaign_id}/rating-form"@ =~= pre + p + "/rating-form"@);
    assert forall|i: int| 0 <= i < pre.len() implies pre[i] != p[0] by {}
    assert forall|i: int| 0 <= i < "/rating"@.len() implies "/rating"@[i] != p[0] by {}
    assert forall|i: int| 0 <= i < "/rating-form"@.len() implies "/rating-form"@[i] != p[0] by {}
    lemma_replace_placeholder(pre, p, "/rating"@, id);
    lemma_replace_placeholder(pre, p, "/rating-form"@, id);
}

impl Feedback {
    pub fn new() -> (f: Feedback)
        ensures
            f.rating@ == "/api/v1/feedback/{campaign_id}/rating"@,
            f.rating_form@ == "/api/v1/feedback/{campaign_id}/rating-form"@,
            f.scope@ == "/api/v1/feedback"@,
    {
        let rating = "/api/v1/feedback/{campaign_id}/rating";
        let rating_form = "/api/v1/feedback/{campaign_id}/rating-form";
        let scope = "/api/v1/feedback";
        Feedback { rating, scope, rating_form }
    }

    /// The path that takes a rating for the campaign `campaign_id`.
    pub fn add_feedback_route(&self, campaign_id: &str) -> (r: String)
        ensures
            r@ == replace_all(self.rating@, "{campaign_id}"@, campaign_id@),
            self.rating@ == "/api/v1/feedback/{campaign_id}/rating"@ ==> r@ == rating_path(
                campaign_id@,
            ),
    {
        proof {
            lemma_feedback_paths(campaign_id@);
        }
        replace(self.rating, "{campaign_id}", campaign_id)
    }

    /// The path that takes a rating form for the campaign `campaign_id`.
    pub fn add_feedback_form_route(&self, campaign_id: &str) -> (r: String)
        ensures
            r@ == replace_all(self.rating_form@, "{campaign_id}"@, campaign_id@),
            self.rating_form@ == "/api/v1/feedback/{campaign_id}/rating-form"@ ==> r@
                == rating_form_path(campaign_id@),
    {
        proof {
            lemma_feedback_paths(campaign_id@);
        }
        replace(self.rating_form, "{campaign_id}", campaign_id)
    }
}

} // verus!
