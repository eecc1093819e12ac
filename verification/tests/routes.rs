use kaizen::api::campaign::routes::Campaign;
use kaizen::api::feedback::routes::Feedback;
use kaizen::pages::campaigns::routes::Campaigns;

#[test]
fn campaign_api_routes() {
    let c = Campaign::new();
    assert_eq!(c.new, "/api/v1/campaign/new");
    assert_eq!(c.list, "/api/v1/campaign/list");
    assert_eq!(c.get_delete_route("abc"), "/api/v1/campaign/abc/delete");
    assert_eq!(c.get_feedback_route("abc"), "/api/v1/campaign/abc/feedback");
}

#[test]
fn feedback_api_routes() {
    let f = Feedback::new();
    assert_eq!(f.scope, "/api/v1/feedback");
    assert_eq!(f.add_feedback_route("id1"), "/api/v1/feedback/id1/rating");
    assert_eq!(f.add_feedback_form_route("id1"), "/api/v1/feedback/id1/rating-form");
    assert!(f.rating.strip_prefix(f.scope).is_some());
    assert!(f.rating_form.strip_prefix(f.scope).is_some());
}

#[test]
fn campaign_page_routes() {
    let c = Campaigns::new();
    assert_eq!(c.home, "/campaigns");
    assert_eq!(c.new, "/campaigns/new");
    assert_eq!(c.get_delete_route("x"), "/campaigns/x/delete");
    assert_eq!(c.get_feedback_route("x"), "/campaigns/x/feedback");
}

#[test]
fn sitemap_lists_home_and_new() {
    assert_eq!(Campaigns::get_sitemap(), ["/campaigns", "/campaigns/new"]);
}

#[test]
fn route_of_id_holding_placeholder_is_not_rescanned() {
    let c = Campaign::new();
    assert_eq!(c.get_delete_route("{uuid}"), "/api/v1/campaign/{uuid}/delete");
}
