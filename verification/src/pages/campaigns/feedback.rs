//! The page that shows a campaign's feedback.
use vstd::prelude::*;

use crate::api::campaign::GetFeedbackResp;

verus! {

/// A campaign's feedback, with the campaign's identifier as given in the path.
#[derive(Clone, Debug, PartialEq, Eq)]
pub struct ViewFeedback<'a> {
    pub campaign: GetFeedbackResp,
    pub uuid: &'a str,
}

impl<'a> ViewFeedback<'a> {
    pub fn new(campaign: GetFeedbackResp, uuid: &'a str) -> (page: ViewFeedback<'a>)
        ensures
            page.campaign == campaign,
            page.uuid == uuid,
    {
        ViewFeedback { campaign, uuid }
    }
}

} // verus!
