//! Paths of the campaign API.
use vstd::prelude::*;

use crate::text::{lemma_replace_placeholder, replace, replace_all};

verus! {

/// The campaign API's paths; `{uuid}` stands for a campaign's identifier.
pub struct Campaign {
    pub new: &'static str,
    pub delete: &'static str,
    pub get_feedback: &'static str,
    pub list: &'static str,
}

/// The delete path of the campaign `id`.
pub open spec fn campaign_delete_path(id: Seq<char>) -> Seq<char> {
    "/api/v1/campaign/"@ + id + "/delete"@
}

/// The feedback path of the campaign `id`.
pub open spec fn campaign_feedback_path(id: Seq<char>) -> Seq<char> {
    "/api/v1/campaign/"@ + id + "/feedback"@
}

/// Filling the placeholder of the campaign API's templates with an
/// identifier puts the identifier between the template's fixed parts.
pub proof fn lemma_campaign_paths(id: Seq<char>)
    ensures
        replace_all("/api/v1/campaign/{uuid}/delete"@, "{uuid}"@, id) == campaign_delete_path(id),
        replace_all("/api/v1/campaign/{uuid}/feedback"@, "{uuid}"@, id)
            == campaign_feedback_path(id),
{
    reveal_strlit("/api/v1/campaign/{uuid}/delete");
    reveal_strlit("/api/v1/campaign/{uuid}/feedback");
    reveal_strlit("/api/v1/campaign/");
    reveal_strlit("{uuid}");
    reveal_strlit("/delete");
    reveal_strlit("/feedback");
    let pre = "/api/v1/campaign/"@;
    let p = "{uuid}"@;
    assert("/api/v1/campaign/{uuid}/delete"@ =~= pre + p + "/delete"@);
    assert("/api/v1/campaign/{uuid}/feedback"@ =~= pre + p + "/feedback"@);
    assert forall|i: int| 0 <= i < pre.len() implies pre[i] != p[0] by {}
    assert forall|i: int| 0 <= i < "/delete"@.len() implies "/delete"@[i] != p[0] by {}
    assert forall|i: int| 0 <= i < "/feedback"@.len() implies "/feedback"@[i] != p[0] by {}
    lemma_replace_placeholder(pre, p, "/delete"@, id);
    lemma_replace_placeholder(pre, p, "/feedback"@, id);
}

impl Campaign {
    pub fn new() -> (c: Campaign)
        ensures
            c.new@ == "/api/v1/campaign/new"@,
            c.delete@ == "/api/v1/campaign/{uuid}/delete"@,
            c.get_feedback@ == "/api/v1/campaign/{uuid}/feedback"@,
            c.list@ == "/api/v1/campaign/list"@,
    {
        let new = "/api/v1/campaign/new";
        let delete = "/api/v1/campaign/{uuid}/delete";
        let get_feedback = "/api/v1/campaign/{uuid}/feedback";
        let list = "/api/v1/campaign/list";
        Campaign { new, delete, get_feedback, list }
    }

    /// The feedback path of the campaign `campaign_id`.
    pub fn get_feedback_route(&self, campaign_id: &str) -> (r: String)
        ensures
            r@ == replace_all(self.get_feedback@, "{uuid}"@, campaign_id@),
            self.get_feedback@ == "/api/v1/campaign/{uuid}/feedback"@ ==> r@
                == campaign_feedback_path(campaign_id@),
    {
        proof {
            lemma_campaign_paths(campaign_id@);
        }
        replace(self.get_feedback, "{uuid}", campaign_id)
    }

    /// The delete path of the campaign `campaign_id`.
    pub fn get_delete_route(&self, campaign_id: &str) -> (r: String)
        ensures
            r@ == replace_all(self.delete@, "{uuid}"@, campaign_id@),
            self.delete@ == "/api/v1/campaign/{uuid}/delete"@ ==> r@ == campaign_delete_path(
                campaign_id@,
            ),
    {
        proof {
            lemma_campaign_paths(campaign_id@);
        }
        replace(self.delete, "{uuid}", campaign_id)
    }
}

} // verus!
