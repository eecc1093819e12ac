use kaizen::api::campaign::get_feedback_resp;
use kaizen::api::campaign::FeedbackRow;
use kaizen::api::feedback::routes::Feedback;
use kaizen::api::feedback::{
    check_rating, check_rating_with, rating_after_feedback, rating_after_page,
    rating_form_reply, rating_start, FeedbackSuccess, RatingReq, RatingResp, RatingStep, State,
    URL_MAX_LENGTH,
};
use kaizen::errors::{ServiceError, StoreError};
use kaizen::ident::{id_text, parse_campaign_id};
use kaizen::pages::errors::ErrorPage;

fn filler(len: usize) -> String {
    "abcdefghij".chars().cycle().take(len).collect()
}

fn db(code: &str, message: &str) -> StoreError {
    StoreError::Database { code: Some(code.to_string()), message: message.to_string() }
}

fn rating(page_url: String) -> RatingReq {
    RatingReq { helpful: true, description: "x".into(), page_url }
}

#[test]
fn feedback_page_url_length() {
    const PAGE_URL: &str = "http://example.com/foo";
    let url = format!("{}/{}", PAGE_URL, filler(URL_MAX_LENGTH - PAGE_URL.len()));
    let mut req = RatingReq { helpful: true, description: "testfeedbackurluser".into(), page_url: url };
    assert_eq!(check_rating(&req), Err(ServiceError::URLTooLong));
    assert_eq!(rating_start(&req), RatingStep::Reject(ServiceError::URLTooLong));

    req.page_url = req.page_url[0..(req.page_url.len() - 1)].into();
    assert_eq!(req.page_url.len(), URL_MAX_LENGTH);
    assert_eq!(check_rating(&req), Ok(()));
    assert_eq!(rating_start(&req), RatingStep::InsertPage);
}

#[test]
fn feedback_works() {
    const NAME: &str = "testfeedbackuser";
    const PAGE_URL: &str = "http://example.com/foo";
    let routes = Feedback::new();

    // a rating path whose id is a user name is not an id
    let bad = routes.add_feedback_route(NAME);
    let segment = bad
        .strip_prefix("/api/v1/feedback/")
        .and_then(|s| s.strip_suffix("/rating"))
        .unwrap();
    assert_eq!(parse_campaign_id(segment), Err(ServiceError::NotAnId));

    let mut req = RatingReq { helpful: true, description: NAME.into(), page_url: "foo".into() };
    assert_eq!(check_rating(&req), Err(ServiceError::NotAUrl));

    req.page_url = filler(URL_MAX_LENGTH + 1);
    assert_eq!(check_rating(&req), Err(ServiceError::URLTooLong));

    req.page_url = PAGE_URL.into();
    assert_eq!(rating_start(&req), RatingStep::InsertPage);
    assert_eq!(rating_after_page(Ok(())), RatingStep::InsertFeedback);
    let id = 42u128;
    assert_eq!(
        rating_after_feedback(Ok(()), id),
        RatingStep::Reply(RatingResp { uuid: id_text(id) })
    );

    let rows = vec![FeedbackRow { time: 1, description: NAME.into(), helpful: true }];
    let campaign = get_feedback_resp("testfeedbackuser".into(), &rows);
    assert!(campaign.feedbacks.iter().any(|f| f.description == NAME));
}

#[test]
fn feedback_duplicate_page_url_works() {
    const NAME: &str = "testfeedbackspamuser";
    const PAGE_URL: &str = "http://spam.example.com/foo";
    let req = rating(PAGE_URL.into());
    let count = 5;
    let mut rows = Vec::with_capacity(count);
    for i in 0..count {
        assert_eq!(rating_start(&req), RatingStep::InsertPage);
        let page = if i == 0 {
            Ok(())
        } else {
            Err(db(
                "23505",
                "duplicate key value violates unique constraint \"kaizen_campaign_pages_page_url_key\"",
            ))
        };
        assert_eq!(rating_after_page(page), RatingStep::InsertFeedback);
        match rating_after_feedback(Ok(()), i as u128) {
            RatingStep::Reply(_) => rows.push(FeedbackRow { time: 0, description: NAME.into(), helpful: true }),
            other => panic!("unexpected {:?}", other),
        }
    }
    let campaign = get_feedback_resp("c".into(), &rows);
    assert_eq!(campaign.feedbacks.len(), count);
    assert!(campaign.feedbacks.iter().any(|f| f.description == NAME));
}

#[test]
fn feedback_form_works() {
    let state = State { redirect_to: None };
    let reply = rating_form_reply(Ok(RatingResp { uuid: id_text(3) }), state);
    assert_eq!(reply.error, None);
    assert_eq!(reply.location, None);

    let state = State { redirect_to: Some("https://example.com/thanks".into()) };
    let reply = rating_form_reply(Err(ServiceError::NotAUrl), state);
    assert_eq!(reply.error, Some(ServiceError::NotAUrl));
    assert_eq!(reply.location, Some("https://example.com/thanks".to_string()));
}

#[test]
fn page_store_refusal_rejects_rating() {
    let other = db("23503", "violates foreign key constraint");
    assert_eq!(
        rating_after_page(Err(other.clone())),
        RatingStep::Reject(ServiceError::Store(other))
    );
    assert_eq!(rating_after_page(Err(StoreError::Other)), RatingStep::InsertFeedback);
}

#[test]
fn feedback_id_clash_is_retried() {
    let clash = db("23505", "unique constraint \"kaizen_campaign_uuid_key\"");
    assert_eq!(rating_after_feedback(Err(clash), 1), RatingStep::InsertFeedback);
    assert_eq!(rating_after_feedback(Err(StoreError::Other), 1), RatingStep::InsertFeedback);
    let other = db("23505", "unique constraint \"kaizen_feedbacks_uuid_key\"");
    assert_eq!(
        rating_after_feedback(Err(other.clone()), 1),
        RatingStep::Reject(ServiceError::Store(other))
    );
}

#[test]
fn rating_verdict_order() {
    let long = rating(format!("http://{}", filler(URL_MAX_LENGTH)));
    assert_eq!(check_rating_with(&long, true), Err(ServiceError::URLTooLong));
    let short = rating("http://e.com".into());
    assert_eq!(check_rating_with(&short, false), Err(ServiceError::NotAUrl));
    assert_eq!(check_rating_with(&short, true), Ok(()));
}

#[test]
fn url_length_counts_bytes() {
    // a path of two-byte characters: 13 + 2 * 1017 = 2047 bytes
    let at_limit = format!("http://e.com/{}", "é".repeat((URL_MAX_LENGTH - 13) / 2));
    assert_eq!(at_limit.len(), URL_MAX_LENGTH - 1);
    assert!(at_limit.chars().count() < 1100);
    assert_eq!(check_rating(&rating(at_limit.clone())), Ok(()));
    let over = format!("{}éé", at_limit);
    assert_eq!(check_rating(&rating(over)), Err(ServiceError::URLTooLong));
}

#[test]
fn feedback_success_page() {
    assert_eq!(FeedbackSuccess::default().error, None);
    let page = FeedbackSuccess::new("Bad Request", "oops");
    assert_eq!(page.error, Some(ErrorPage { title: "Bad Request", message: "oops" }));
}
