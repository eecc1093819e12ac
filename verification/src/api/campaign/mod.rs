//! Campaigns: creating one, listing a user's campaigns and reading the
//! feedback collected for one.
use vstd::prelude::*;

use crate::errors::{is_unique_violation, unique_violation, ServiceError, StoreError};
use crate::ident::{hyphenated, id_text};

pub mod routes;

verus! {

/// The unique constraint on campaign identifiers.
pub open spec fn campaign_id_key() -> Seq<char> {
    "kaizen_campaign_uuid_key"@
}

/// A request to create a campaign.
#[derive(Clone, Debug, PartialEq, Eq)]
pub struct CreateReq {
    pub name: String,
}

/// The identifier of a created campaign.
#[derive(Clone, Debug, PartialEq, Eq)]
pub struct CreateResp {
    pub uuid: String,
}

/// One piece of feedback, as shown to the campaign's owner.
#[derive(Clone, Debug, PartialEq, Eq)]
pub struct Feedback {
    pub time: u64,
    pub description: String,
    pub helpful: bool,
}

/// A campaign's name and the feedback collected for it.
#[derive(Clone, Debug, PartialEq, Eq)]
pub struct GetFeedbackResp {
    pub name: String,
    pub feedbacks: Vec<Feedback>,
}

/// One campaign in a user's list.
#[derive(Clone, Debug, PartialEq, Eq)]
pub struct ListCampaignResp {
    pub name: String,
    pub uuid: String,
}

/// A stored campaign as the store returns it.
#[derive(Clone, Debug, PartialEq, Eq)]
pub struct CampaignRow {
    pub name: String,
    pub id: u128,
}

/// A stored piece of feedback as the store returns it; `time` is seconds
/// since the Unix epoch.
#[derive(Clone, Debug, PartialEq, Eq)]
pub struct FeedbackRow {
    pub time: i64,
    pub description: String,
    pub helpful: bool,
}

/// What follows an attempt to store a new campaign under a fresh identifier.
#[derive(Clone, Debug, PartialEq, Eq)]
pub enum CreateStep {
    /// The campaign is stored; this is the reply.
    Created(CreateResp),
    /// Try again with another fresh identifier.
    Retry,
    /// Give up with this error.
    Failed(ServiceError),
}

/// Decides what follows an attempt to store a campaign under `id`: a stored
/// campaign is answered with its identifier; a clash on the identifier, or a
/// failure that is not the database's, is tried again; any other database
/// refusal ends the request.
pub fn after_campaign_insert(outcome: Result<(), StoreError>, id: u128) -> (step: CreateStep)
    ensures
        match outcome {
            Ok(()) => step matches CreateStep::Created(resp) && resp.uuid@ == hyphenated(id),
            Err(e) => if is_unique_violation(e, campaign_id_key()) || e is Other {
                step is Retry
            } else {
                step == CreateStep::Failed(ServiceError::Store(e))
            },
        },
{
    match outcome {
        Ok(()) => CreateStep::Created(CreateResp { uuid: id_text(id) }),
        Err(e) => {
            let key = "kaizen_campaign_uuid_key";
            let clash = unique_violation(&e, key);
            match e {
                StoreError::Other => CreateStep::Retry,
                StoreError::Database { .. } => {
                    if clash {
                        CreateStep::Retry
                    } else {
                        CreateStep::Failed(ServiceError::Store(e))
                    }
                },
            }
        },
    }
}

/// The list of a user's campaigns: one entry per stored campaign, in order,
/// each with its name and the text form of its identifier.
pub fn list_campaign_resp(rows: &Vec<CampaignRow>) -> (list: Vec<ListCampaignResp>)
    ensures
        list.len() == rows.len(),
        forall|i: int|
            0 <= i < rows.len() ==> #[trigger] list[i].name == rows[i].name && list[i].uuid@
                == hyphenated(rows[i].id),
{
    let mut list: Vec<ListCampaignResp> = Vec::new();
    let mut i: usize = 0;
    while i < rows.len()
        invariant
            i <= rows.len(),
            list.len() == i,
            forall|j: int|
                0 <= j < i ==> #[trigger] list[j].name == rows[j].name && list[j].uuid@
                    == hyphenated(rows[j].id),
        decreases rows.len() - i,
    {
        let row = &rows[i];
        list.push(ListCampaignResp { name: row.name.clone(), uuid: id_text(row.id) });
        i = i + 1;
    }
    list
}

/// A stored piece of feedback as shown: the time is taken as unsigned, as
/// `as u64` takes it.
pub fn feedback_of_row(row: &FeedbackRow) -> (f: Feedback)
    ensures
        f.time == row.time as u64,
        f.description == row.description,
        f.helpful == row.helpful,
{
    Feedback { time: row.time as u64, description: row.description.clone(), helpful: row.helpful }
}

/// A campaign's name with all its feedback, one entry per stored piece, in
/// order.
pub fn get_feedback_resp(name: String, rows: &Vec<FeedbackRow>) -> (resp: GetFeedbackResp)
    ensures
        resp.name == name,
        resp.feedbacks.len() == rows.len(),
        forall|i: int|
            0 <= i < rows.len() ==> {
                &&& #[trigger] resp.feedbacks[i].time == rows[i].time as u64
                &&& resp.feedbacks[i].description == rows[i].description
                &&& resp.feedbacks[i].helpful == rows[i].helpful
            },
{
    let mut feedbacks: Vec<Feedback> = Vec::new();
    let mut i: usize = 0;
    while i < rows.len()
        invariant
            i <= rows.len(),
            feedbacks.len() == i,
            forall|j: int|
                0 <= j < i ==> {
                    &&& #[trigger] feedbacks[j].time == rows[j].time as u64
                    &&& feedbacks[j].description == rows[j].description
                    &&& feedbacks[j].helpful == rows[j].helpful
                },
        decreases rows.len() - i,
    {
        feedbacks.push(feedback_of_row(&rows[i]));
        i = i + 1;
    }
    GetFeedbackResp { name, feedbacks }
}

} // verus!
