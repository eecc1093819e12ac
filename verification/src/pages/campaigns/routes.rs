//! Paths of the campaign pages.
use vstd::prelude::*;

use crate::text::{lemma_replace_placeholder, replace, replace_all};

verus! {

/// The campaign pages' paths; `{uuid}` stands for a campaign's identifier.
pub struct Campaigns {
    pub home: &'static str,
    pub new: &'static str,
    pub get_feedback: &'static str,
    pub delete: &'static str,
}

/// The page that deletes the campaign `id`.
pub open spec fn delete_page_path(id: Seq<char>) -> Seq<char> {
    "/campaigns/"@ + id + "/delete"@
}

/// The page that shows the feedback of the campaign `id`.
pub open spec fn feedback_page_path(id: Seq<char>) -> Seq<char> {
    "/campaigns/"@ + id + "/feedback"@
}

/// Filling the placeholder of the campaign pages' templates with an
/// identifier puts the identifier between the template's fixed parts.
pub proof fn lemma_campaign_page_paths(id: Seq<char>)
    ensures
        replace_all("/campaigns/{uuid}/delete"@, "{uuid}"@, id) == delete_page_path(id),
        replace_all("/campaigns/{uuid}/feedback"@, "{uuid}"@, id) == feedback_page_path(id),
{
    reveal_strlit("/campaigns/{uuid}/delete");
    reveal_strlit("/campaigns/{uuid}/feedback");
    reveal_strlit("/campaigns/");
    reveal_strlit("{uuid}");
    reveal_strlit("/delete");
    reveal_strlit("/feedback");
    let pre = "/campaigns/"@;
    let p = "{uuid}"@;
    assert("/campaigns/{uuid}/delete"@ =~= pre + p + "/delete"@);
    assert("/campaigns/{uuid}/feedback"@ =~= pre + p + "/feedback"@);
    assert forall|i: int| 0 <= i < pre.len() implies pre[i] != p[0] by {}
    assert forall|i: int| 0 <= i < "/delete"@.len() implies "/delete"@[i] != p[0] by {}
    assert forall|i: int| 0 <= i < "/feedback"@.len() implies "/feedback"@[i] != p[0] by {}
    lemma_replace_placeholder(pre, p, "/delete"@, id);
    lemma_replace_placeholder(pre, p, "/feedback"@, id);
}

impl Campaigns {
    pub fn new() -> (c: Campaigns)
        ensures
            c.home@ == "/campaigns"@,
            c.new@ == "/campaigns/new"@,
            c.get_feedback@ == "/campaigns/{uuid}/feedback"@,
            c.delete@ == "/campaigns/{uuid}/delete"@,
    {
        Campaigns {
            home: "/campaigns",
            new: "/campaigns/new",
            get_feedback: "/campaigns/{uuid}/feedback",
            delete: "/campaigns/{uuid}/delete",
        }
    }

    /// The page that deletes the campaign `campaign_id`.
    pub fn get_delete_route(&self, campaign_id: &str) -> (r: String)
        ensures
            r@ == replace_all(self.delete@, "{uuid}"@, campaign_id@),
            self.delete@ == "/campaigns/{uuid}/delete"@ ==> r@ == delete_page_path(campaign_id@),
    {
        proof {
            lemma_campaign_page_paths(campaign_id@);
        }
        replace(self.delete, "{uuid}", campaign_id)
    }

    /// The page that shows the feedback of the campaign `campaign_id`.
    pub fn get_feedback_route(&self, campaign_id: &str) -> (r: String)
        ensures
            r@ == replace_all(self.get_feedback@, "{uuid}"@, campaign_id@),
            self.get_feedback@ == "/campaigns/{uuid}/feedback"@ ==> r@ == feedback_page_path(
                campaign_id@,
            ),
    {
        proof {
            lemma_campaign_page_paths(campaign_id@);
        }
        replace(self.get_feedback, "{uuid}", campaign_id)
    }

    /// The pages listed in the site map: the campaign list and the form for a
    /// new campaign.
    pub fn get_sitemap() -> (pages: [&'static str; 2])
        ensures
            pages[0]@ == "/campaigns"@,
            pages[1]@ == "/campaigns/new"@,
    {
        let campaigns = Campaigns::new();
        [campaigns.home, campaigns.new]
    }
}

} // verus!
