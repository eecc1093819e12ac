//! The page that deletes a campaign once the owner's password is confirmed.
use vstd::prelude::*;

use crate::errors::ServiceError;
use crate::pages::campaigns::routes::Campaigns;
use crate::pages::campaigns::SubmitReply;

verus! {

/// The question asked before deleting the campaign `name`.
pub open spec fn delete_question(name: Seq<char>) -> Seq<char> {
    "Delete camapign \""@ + name + "\"?"@
}

/// The question holds the whole name, unshortened, between a fixed opening
/// of 17 characters and a closing of 2: so different names give different
/// questions.
pub proof fn lemma_delete_question_holds_name(name: Seq<char>, other: Seq<char>)
    ensures
        delete_question(name).len() == name.len() + 19,
        delete_question(name).subrange(17, 17 + name.len() as int) == name,
        delete_question(name).subrange(0, 17) == delete_question(other).subrange(0, 17),
        delete_question(name) == delete_question(other) ==> name == other,
{
    reveal_strlit("Delete camapign \"");
    reveal_strlit("\"?");
    assert(delete_question(name).subrange(17, 17 + name.len() as int) =~= name);
    assert(delete_question(other).subrange(17, 17 + other.len() as int) =~= other);
    assert(delete_question(name).subrange(0, 17) =~= delete_question(other).subrange(0, 17));
}

/// The title of the page that deletes the campaign `name`.
pub fn delete_title(name: &str) -> (title: String)
    ensures
        title@ == delete_question(name@),
        title@.len() == name@.len() + 19,
        title@.subrange(17, 17 + name@.len() as int) == name@,
{
    proof {
        lemma_delete_question_holds_name(name@, name@);
    }
    let mut title = String::new();
    title.append("Delete camapign \"");
    title.append(name);
    title.append("\"?");
    title
}

/// What follows the password check when deleting a campaign from its page.
#[derive(Clone, Debug, PartialEq, Eq)]
pub enum DeleteStep {
    /// The password is right: delete the campaign.
    DeleteCampaign,
    /// Show the page again with this error.
    ShowError(ServiceError),
}

/// After checking the owner's password: a wrong one is shown on the page
/// and nothing is deleted.
pub fn delete_after_login(login: Result<(), ServiceError>) -> (step: DeleteStep)
    ensures
        match login {
            Ok(()) => step is DeleteCampaign,
            Err(e) => step == DeleteStep::ShowError(e),
        },
{
    match login {
        Ok(()) => DeleteStep::DeleteCampaign,
        Err(e) => DeleteStep::ShowError(e),
    }
}

/// After deleting: the browser goes back to the campaign list, or the
/// failure is shown on the page.
pub fn delete_after_delete(deleted: Result<(), ServiceError>) -> (reply: SubmitReply)
    ensures
        match deleted {
            Ok(()) => reply matches SubmitReply::Redirect(location) && location@ == "/campaigns"@,
            Err(e) => reply == SubmitReply::ShowError(e),
        },
{
    match deleted {
        Ok(()) => {
            let pages = Campaigns::new();
            let mut location = String::new();
            location.append(pages.home);
            SubmitReply::Redirect(location)
        },
        Err(e) => SubmitReply::ShowError(e),
    }
}

} // verus!
