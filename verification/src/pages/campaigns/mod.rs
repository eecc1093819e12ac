//! The campaign pages of the panel.
use vstd::prelude::*;

use crate::api::campaign::ListCampaignResp;
use crate::errors::ServiceError;

pub mod delete;
pub mod feedback;
pub mod new;
pub mod routes;

verus! {

/// The answer to a submitted form.
#[derive(Clone, Debug, PartialEq, Eq)]
pub enum SubmitReply {
    /// Send the browser here.
    Redirect(String),
    /// Show the form again with this error.
    ShowError(ServiceError),
}

/// The page that lists a user's campaigns.
#[derive(Clone, Debug, PartialEq, Eq)]
pub struct HomePage {
    pub data: Vec<ListCampaignResp>,
}

impl HomePage {
    pub fn new(data: Vec<ListCampaignResp>) -> (page: HomePage)
        ensures
            page.data == data,
    {
        HomePage { data }
    }
}

} // verus!
