use realworld::author::{Author, AuthorData};
use realworld::avatar::Avatar;
use realworld::credentials::Credentials;
use realworld::paginated_list::PaginatedList;
use realworld::session::Session;
use realworld::text::{decimal_string, join};
use realworld::username::Username;
use realworld::viewer::Viewer;
use realworld::page_number::PageNumber;

fn viewer(name: &str) -> Viewer {
    Viewer::new(
        Avatar::new(Some("pic.png".to_string())),
        Credentials { username: Username::new(name.to_string()), auth_token: "tok".to_string() },
    )
}

#[test]
fn total_pages_rounds_up() {
    let list = |total: usize, per_page: usize| PaginatedList::<u8> { values: vec![], per_page, total };
    assert_eq!(list(0, 5).total_pages(), 0);
    assert_eq!(list(1, 5).total_pages(), 1);
    assert_eq!(list(5, 5).total_pages(), 1);
    assert_eq!(list(6, 5).total_pages(), 2);
    assert_eq!(list(21, 10).total_pages(), 3);
    assert_eq!(list(usize::MAX, 2).total_pages(), usize::MAX / 2 + 1);
}

#[test]
fn paginated_list_default() {
    let list = PaginatedList::<u8>::default();
    assert!(list.values.is_empty());
    assert_eq!(list.per_page, 5);
    assert_eq!(list.total, 0);
}

#[test]
fn session_new_and_viewer() {
    assert!(Session::new(None).viewer().is_none());
    let s = Session::new(Some(viewer("jake")));
    assert_eq!(s.viewer().unwrap().username().as_str(), "jake");
    assert_eq!(s.viewer().unwrap().avatar().url, Some("pic.png".to_string()));
    assert!(Session::default().viewer().is_none());
}

#[test]
fn username_basics() {
    let u = Username::new("jake".to_string());
    assert_eq!(u.as_str(), "jake");
    let v: Username = String::from("jake").into();
    assert!(u.same_as(&v));
    assert!(!u.same_as(&Username::new("Jake".to_string())));
}

fn author_data(name: &str, following: bool) -> AuthorData {
    AuthorData { username: name.to_string(), bio: Some("bio".to_string()), image: "img".to_string(), following }
}

#[test]
fn author_classification() {
    let s = Session::new(Some(viewer("jake")));
    assert!(matches!(author_data("jake", true).into_author(&s), Author::IsViewer(..)));
    assert!(matches!(author_data("jake", false).into_author(&s), Author::IsViewer(..)));
    assert!(matches!(author_data("anna", true).into_author(&s), Author::Following(..)));
    assert!(matches!(author_data("anna", false).into_author(&s), Author::NotFollowing(..)));
    let guest = Session::Guest;
    let a = author_data("jake", false).into_author(&guest);
    assert!(matches!(a, Author::NotFollowing(..)));
    assert_eq!(a.username().as_str(), "jake");
    assert_eq!(a.profile().avatar.url, Some("img".to_string()));
    assert_eq!(a.profile().bio, Some("bio".to_string()));
}

#[test]
fn decimal_rendering() {
    for n in [0usize, 7, 10, 45, 100, 12345, usize::MAX] {
        assert_eq!(decimal_string(n), n.to_string());
    }
}

#[test]
fn joining() {
    let parts: Vec<String> = vec!["a".into(), "bc".into(), "".into(), "d".into()];
    assert_eq!(join(&parts, ", "), "a, bc, , d");
    assert_eq!(join(&Vec::new(), "/"), "");
    assert_eq!(join(&vec!["x".to_string()], "/"), "x");
}

#[test]
fn page_numbers() {
    assert!(PageNumber::new(0).is_none());
    assert_eq!(PageNumber::new(3).unwrap().to_usize(), 3);
    assert_eq!(PageNumber::default().to_usize(), 1);
}
