//! The form that creates a campaign.
use vstd::prelude::*;

use crate::api::campaign::CreateResp;
use crate::errors::ServiceError;
use crate::pages::campaigns::routes::Campaigns;
use crate::pages::campaigns::SubmitReply;
use crate::pages::errors::ErrorPage;

verus! {

/// The new-campaign form, with an error box when the last try failed.
#[derive(Clone, Copy, Debug, PartialEq, Eq)]
pub struct NewCampaign<'a> {
    pub error: Option<ErrorPage<'a>>,
}

impl<'a> Default for NewCampaign<'a> {
    fn default() -> (page: NewCampaign<'a>)
        ensures
            page.error is None,
    {
        NewCampaign { error: None }
    }
}

impl<'a> NewCampaign<'a> {
    pub fn new(title: &'a str, message: &'a str) -> (page: NewCampaign<'a>)
        ensures
            page.error == Some(ErrorPage { title, message }),
    {
        NewCampaign { error: Some(ErrorPage::new(title, message)) }
    }
}

/// Answers the new-campaign form: a created campaign sends the browser to
/// the campaign list; a failure is shown on the form.
pub fn new_campaign_reply(created: Result<CreateResp, ServiceError>) -> (reply: SubmitReply)
    ensures
        match created {
            Ok(_) => reply matches SubmitReply::Redirect(location) && location@ == "/campaigns"@,
            Err(e) => reply == SubmitReply::ShowError(e),
        },
{
    match created {
        Ok(_) => {
            let pages = Campaigns::new();
            let mut location = String::new();
            location.append(pages.home);
            SubmitReply::Redirect(location)
        },
        Err(e) => SubmitReply::ShowError(e),
    }
}

} // verus!
