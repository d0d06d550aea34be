use realworld::article::{CommentId, Tag};
use realworld::avatar::Avatar;
use realworld::credentials::Credentials;
use realworld::page::home::FeedTab as HomeFeedTab;
use realworld::page::profile::FeedTab as ProfileFeedTab;
use realworld::page_number::PageNumber;
use realworld::problem::Problem;
use realworld::request::feed::{load_for_home, load_for_profile};
use realworld::request::feed::paging::{into_paginated_list, keep_converted};
use realworld::request::user::{SettingsData, SettingsField, UserData};
use realworld::request::{
    api_url, article_path, authorization, authorization_header_name, comment_path, comments_path,
    data_result_into_errors, fail_reason_into_errors, fail_reason_into_problems, favorite_path,
    follow_path, process_delete_comment_response, process_response, process_response_for_user,
    process_response_into_problems, profile_path,
    server_error_messages, FailReason, FieldErrors, Response, StatusData, TIMEOUT,
};
use realworld::slug::Slug;
use realworld::request::{article, comment, favorite, follow, login, register, settings, tag, Method};
use realworld::request::author as author_request;
use realworld::username::Username;
use realworld::viewer::Viewer;

fn viewer() -> Viewer {
    Viewer::new(
        Avatar::new(None),
        Credentials { username: Username::new("jake".to_string()), auth_token: "jwt.token".to_string() },
    )
}

fn field_errors() -> Vec<FieldErrors> {
    vec![
        FieldErrors { field: "email".into(), messages: vec!["is invalid".into()] },
        FieldErrors { field: "password".into(), messages: vec!["is too short".into(), "is blank".into()] },
    ]
}

#[test]
fn new_request() {
    let r = realworld::request::new::<()>("user", Some(&viewer()));
    assert_eq!(r.url, "https://conduit.productionready.io/api/user");
    assert_eq!(r.timeout, 5000);
    assert_eq!(r.authorization, Some("Token jwt.token".to_string()));
    assert_eq!(realworld::request::new::<()>("tags", None).authorization, None);
    assert!(matches!(r.method, Method::Get));
    assert!(r.body.is_none());
}

#[test]
fn request_addresses() {
    assert_eq!(api_url("tags"), "https://conduit.productionready.io/api/tags");
    assert_eq!(TIMEOUT, 5000);
    assert_eq!(authorization_header_name(), "authorization");
    assert_eq!(authorization(Some(&viewer())), Some("Token jwt.token".to_string()));
    assert_eq!(authorization(None), None);
    let slug = Slug::new("how-to".to_string());
    assert_eq!(article_path(&slug), "articles/how-to");
    assert_eq!(comments_path(&slug), "articles/how-to/comments");
    assert_eq!(comment_path(&slug, &CommentId { value: "42".into() }), "articles/how-to/comments/42");
    assert_eq!(favorite_path(&slug), "articles/how-to/favorite");
    let u = Username::new("anna".to_string());
    assert_eq!(profile_path(&u), "profiles/anna");
    assert_eq!(follow_path(&u), "profiles/anna/follow");
}

#[test]
fn profile_feed_urls() {
    let u = Username::new("anna".to_string());
    assert_eq!(
        load_for_profile::request_url(&u, ProfileFeedTab::MyArticles, PageNumber::default()),
        "articles?author=anna&limit=5&offset=0"
    );
    assert_eq!(
        load_for_profile::request_url(&u, ProfileFeedTab::FavoritedArticles, PageNumber::new(3).unwrap()),
        "articles?favorited=anna&limit=5&offset=10"
    );
}

#[test]
fn home_feed_urls() {
    assert_eq!(
        load_for_home::request_url(&HomeFeedTab::GlobalFeed, PageNumber::default()),
        "articles?limit=10&offset=0"
    );
    assert_eq!(
        load_for_home::request_url(&HomeFeedTab::YourFeed(viewer()), PageNumber::new(2).unwrap()),
        "articles/feed?limit=10&offset=10"
    );
    assert_eq!(
        load_for_home::request_url(&HomeFeedTab::TagFeed(Tag::new("rust".into())), PageNumber::new(4).unwrap()),
        "articles?limit=10&offset=30&tag=rust"
    );
}

#[test]
fn server_errors_are_formatted_by_field() {
    assert_eq!(
        server_error_messages(&field_errors()),
        vec!["email is invalid".to_string(), "password is too short, is blank".to_string()]
    );
    assert!(server_error_messages(&vec![]).is_empty());
}

#[test]
fn fail_reasons() {
    assert_eq!(fail_reason_into_errors(FailReason::RequestError), vec!["Request error".to_string()]);
    assert_eq!(fail_reason_into_errors(FailReason::DataError), vec!["Data error".to_string()]);
    assert_eq!(
        fail_reason_into_errors(FailReason::Status(StatusData::Undecodable)),
        vec!["Data error".to_string()]
    );
    assert_eq!(
        fail_reason_into_errors(FailReason::Status(StatusData::Decoded(field_errors()))),
        vec!["email is invalid".to_string(), "password is too short, is blank".to_string()]
    );
    let problems = fail_reason_into_problems(FailReason::RequestError);
    assert_eq!(problems.len(), 1);
    assert!(matches!(&problems[0], Problem::ServerError(m) if m == "Request error"));
    assert_eq!(data_result_into_errors::<u8>(Ok(3)), Ok(3));
    assert_eq!(
        data_result_into_errors::<u8>(Err(FailReason::DataError)),
        Err(vec!["Data error".to_string()])
    );
}

#[test]
fn responses() {
    assert_eq!(process_response(Response::Success(Some(7u8))), Ok(7));
    assert_eq!(process_response::<u8>(Response::Success(None)), Err(vec!["Data error".to_string()]));
    assert_eq!(process_response::<u8>(Response::RequestError), Err(vec!["Request error".to_string()]));
    assert_eq!(process_response::<u8>(Response::Failure(None)), Err(vec!["Data error".to_string()]));
    assert_eq!(
        process_response::<u8>(Response::Failure(Some(field_errors()))),
        Err(vec!["email is invalid".to_string(), "password is too short, is blank".to_string()])
    );
    let id = || CommentId { value: "9".into() };
    assert!(matches!(
        process_delete_comment_response::<()>(id(), Response::Success(None)),
        Ok(c) if c.as_str() == "9"
    ));
    assert!(matches!(
        process_delete_comment_response::<()>(id(), Response::RequestError),
        Err(m) if m == vec!["Request error".to_string()]
    ));
}

#[test]
fn conversions() {
    let kept = keep_converted(vec![Ok(1u8), Err("bad"), Ok(3), Err("worse"), Ok(5)]);
    assert_eq!(kept, vec![1, 3, 5]);
    let list = into_paginated_list(vec![Err("x"), Ok(2u8)], 10, 42);
    assert_eq!(list.values, vec![2]);
    assert_eq!(list.per_page, 10);
    assert_eq!(list.total, 42);

    let v = UserData { username: "jake".into(), image: None, token: "t".into() }.into_viewer();
    assert_eq!(v.username().as_str(), "jake");
    assert_eq!(v.credentials().auth_token, "t");
    assert_eq!(v.avatar().url, None);

    let fields = SettingsData {
        email: "j@x.io".into(),
        username: "jake".into(),
        bio: None,
        image: Some("pic".into()),
    }
    .into_form_fields();
    assert_eq!(fields.len(), 5);
    assert!(matches!(&fields[0], SettingsField::Avatar(a) if a == "pic"));
    assert!(matches!(&fields[1], SettingsField::Username(u) if u == "jake"));
    assert!(matches!(&fields[2], SettingsField::Bio(b) if b.is_empty()));
    assert!(matches!(&fields[3], SettingsField::Email(e) if e == "j@x.io"));
    assert!(matches!(&fields[4], SettingsField::Password(p) if p.is_empty()));
}

#[test]
fn responses_as_problems_and_for_users() {
    assert!(matches!(process_response_into_problems(Response::Success(Some(1u8))), Ok(1)));
    match process_response_into_problems::<u8>(Response::Failure(Some(field_errors()))) {
        Err(ps) => {
            assert_eq!(ps.len(), 2);
            assert!(matches!(&ps[1], Problem::ServerError(m) if m == "password is too short, is blank"));
        }
        Ok(_) => panic!("expected problems"),
    }
    match process_response_for_user::<u8>(Username::new("anna".into()), Response::RequestError) {
        Err((u, m)) => {
            assert_eq!(u.as_str(), "anna");
            assert_eq!(m, vec!["Request error".to_string()]);
        }
        Ok(_) => panic!("expected errors"),
    }
}

#[test]
fn request_methods_and_bodies() {
    let v = viewer();
    let slug = Slug::new("s".to_string());
    let anna = Username::new("anna".to_string());
    let base = "https://conduit.productionready.io/api/";

    let r = favorite::favorite(Some(&v), &slug);
    assert!(matches!(r.method, Method::Post));
    assert_eq!(r.url, format!("{}articles/s/favorite", base));
    assert_eq!(r.authorization, Some("Token jwt.token".to_string()));
    assert!(matches!(favorite::unfavorite(Some(&v), &slug).method, Method::Delete));
    assert!(matches!(follow::follow(Some(&v), &anna).method, Method::Post));
    let r = follow::unfollow(None, &anna);
    assert!(matches!(r.method, Method::Delete));
    assert_eq!(r.url, format!("{}profiles/anna/follow", base));
    assert_eq!(r.authorization, None);

    let r = comment::create(Some(&v), &slug, "Nice".to_string());
    assert!(matches!(r.method, Method::Post));
    assert_eq!(r.url, format!("{}articles/s/comments", base));
    assert_eq!(r.body.map(|c| c.body), Some("Nice".to_string()));
    let r = comment::delete(Some(&v), &slug, &CommentId { value: "3".into() });
    assert!(matches!(r.method, Method::Delete));
    assert_eq!(r.url, format!("{}articles/s/comments/3", base));
    assert!(matches!(comment::load_list(None, &slug).method, Method::Get));

    assert!(matches!(article::load(None, &slug).method, Method::Get));
    assert!(matches!(article::load_for_editor(None, &slug).method, Method::Get));
    assert!(matches!(article::delete(Some(&v), &slug).method, Method::Delete));
    let r = article::create(Some(&v), 7u8);
    assert!(matches!(r.method, Method::Post));
    assert_eq!(r.url, format!("{}articles", base));
    assert_eq!(r.body, Some(7));
    let r = article::update(Some(&v), 8u8, &slug);
    assert!(matches!(r.method, Method::Put));
    assert_eq!(r.url, format!("{}articles/s", base));

    let r = login::login(1u8);
    assert!(matches!(r.method, Method::Post));
    assert_eq!(r.url, format!("{}users/login", base));
    assert_eq!(r.authorization, None);
    let r = register::register(2u8);
    assert_eq!(r.url, format!("{}users", base));
    assert!(matches!(r.method, Method::Post));
    assert!(matches!(settings::load(Some(&v)).method, Method::Get));
    let r = settings::update(Some(&v), 3u8);
    assert!(matches!(r.method, Method::Put));
    assert_eq!(r.url, format!("{}user", base));
    let r = tag::load_list();
    assert_eq!(r.url, format!("{}tags", base));
    assert!(matches!(r.method, Method::Get));
    let r = author_request::load(Some(&v), &anna);
    assert_eq!(r.url, format!("{}profiles/anna", base));

    let r = load_for_home::load_for_home(None, &HomeFeedTab::GlobalFeed, PageNumber::new(2).unwrap());
    assert_eq!(r.url, format!("{}articles?limit=10&offset=10", base));
    let r = load_for_profile::load_for_profile(Some(&v), &anna, ProfileFeedTab::MyArticles, PageNumber::default());
    assert_eq!(r.url, format!("{}articles?author=anna&limit=5&offset=0", base));
    assert!(matches!(r.method, Method::Get));
}
