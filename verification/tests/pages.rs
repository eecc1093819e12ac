use kaizen::api::campaign::routes::Campaign;
use kaizen::api::campaign::{CreateResp, GetFeedbackResp, ListCampaignResp};
use kaizen::errors::ServiceError;
use kaizen::pages::campaigns::delete::{delete_after_delete, delete_after_login, delete_title, DeleteStep};
use kaizen::pages::campaigns::feedback::ViewFeedback;
use kaizen::pages::campaigns::new::{new_campaign_reply, NewCampaign};
use kaizen::pages::campaigns::routes::Campaigns;
use kaizen::pages::campaigns::{HomePage, SubmitReply};
use kaizen::pages::errors::ErrorPage;

#[test]
fn delete_new_campaign_form_works() {
    assert_eq!(delete_after_login(Ok(())), DeleteStep::DeleteCampaign);
    match delete_after_delete(Ok(())) {
        SubmitReply::Redirect(location) => assert_eq!(location, Campaigns::new().home),
        other => panic!("unexpected {:?}", other),
    }
}

#[test]
fn delete_with_wrong_password_shows_error() {
    assert_eq!(
        delete_after_login(Err(ServiceError::WrongPassword)),
        DeleteStep::ShowError(ServiceError::WrongPassword)
    );
    assert_eq!(
        delete_after_delete(Err(ServiceError::NotAnId)),
        SubmitReply::ShowError(ServiceError::NotAnId)
    );
}

#[test]
fn delete_page_title() {
    assert_eq!(delete_title("my campaign"), "Delete camapign \"my campaign\"?");
    // the form on an error page posts to the API's delete path
    assert_eq!(Campaign::new().get_delete_route("id"), "/api/v1/campaign/id/delete");
}

#[test]
fn new_new_campaign_form_works() {
    let reply = new_campaign_reply(Ok(CreateResp { uuid: "u".into() }));
    assert_eq!(reply, SubmitReply::Redirect(Campaigns::new().home.to_string()));
    assert_eq!(
        new_campaign_reply(Err(ServiceError::NotAnId)),
        SubmitReply::ShowError(ServiceError::NotAnId)
    );
}

#[test]
fn page_models_hold_their_parts() {
    assert_eq!(NewCampaign::default().error, None);
    assert_eq!(
        NewCampaign::new("t", "m").error,
        Some(ErrorPage::new("t", "m"))
    );
    let data = vec![ListCampaignResp { name: "n".into(), uuid: "u".into() }];
    assert_eq!(HomePage::new(data.clone()).data, data);
    let campaign = GetFeedbackResp { name: "c".into(), feedbacks: vec![] };
    let view = ViewFeedback::new(campaign.clone(), "uid");
    assert_eq!(view.campaign, campaign);
    assert_eq!(view.uuid, "uid");
}
