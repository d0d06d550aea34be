use realworld::route::Route;
use realworld::slug::Slug;
use realworld::username::Username;

fn segs(parts: &[&str]) -> Vec<String> {
    parts.iter().map(|s| s.to_string()).collect()
}

fn same_route(a: &Route, b: &Route) -> bool {
    a.to_string() == b.to_string()
        && std::mem::discriminant(a) == std::mem::discriminant(b)
}

#[test]
fn route_paths() {
    assert_eq!(Route::Home.path(), Vec::<String>::new());
    assert_eq!(Route::Root.path(), Vec::<String>::new());
    assert_eq!(Route::Login.path(), segs(&["login"]));
    assert_eq!(Route::Logout.path(), segs(&["logout"]));
    assert_eq!(Route::Register.path(), segs(&["register"]));
    assert_eq!(Route::Settings.path(), segs(&["settings"]));
    assert_eq!(Route::NewArticle.path(), segs(&["editor"]));
    assert_eq!(
        Route::Article(Slug::new("how-to-train".to_string())).path(),
        segs(&["article", "how-to-train"])
    );
    assert_eq!(
        Route::EditArticle(Slug::new("abc".to_string())).path(),
        segs(&["editor", "abc"])
    );
    assert_eq!(
        Route::Profile(Username::new("jake".to_string())).path(),
        segs(&["profile", "jake"])
    );
}

#[test]
fn route_text() {
    assert_eq!(Route::Home.to_string(), "/");
    assert_eq!(Route::Login.to_string(), "/login");
    assert_eq!(Route::Profile(Username::new("jake".to_string())).to_string(), "/profile/jake");
    assert_eq!(Route::EditArticle(Slug::new("a-b".to_string())).to_string(), "/editor/a-b");
}

#[test]
fn route_parse() {
    assert!(matches!(Route::from_path(&segs(&[])), Ok(Route::Home)));
    assert!(matches!(Route::from_path(&segs(&[""])), Ok(Route::Home)));
    assert!(matches!(Route::from_path(&segs(&["login"])), Ok(Route::Login)));
    assert!(matches!(Route::from_path(&segs(&["logout"])), Ok(Route::Logout)));
    assert!(matches!(Route::from_path(&segs(&["settings"])), Ok(Route::Settings)));
    assert!(matches!(Route::from_path(&segs(&["register"])), Ok(Route::Register)));
    assert!(matches!(Route::from_path(&segs(&["editor"])), Ok(Route::NewArticle)));
    assert!(matches!(Route::from_path(&segs(&["editor", ""])), Ok(Route::NewArticle)));
    match Route::from_path(&segs(&["editor", "my-slug"])) {
        Ok(Route::EditArticle(s)) => assert_eq!(s.as_str(), "my-slug"),
        _ => panic!("expected the editor of an article"),
    }
    match Route::from_path(&segs(&["profile", "jake", "extra"])) {
        Ok(Route::Profile(u)) => assert_eq!(u.as_str(), "jake"),
        _ => panic!("expected a profile"),
    }
    assert!(Route::from_path(&segs(&["profile"])).is_err());
    assert!(Route::from_path(&segs(&["article", ""])).is_err());
    assert!(Route::from_path(&segs(&["nowhere"])).is_err());
    assert!(Route::from_path(&segs(&["Login"])).is_err());
}

#[test]
fn route_roundtrip() {
    let routes = vec![
        Route::Home,
        Route::Login,
        Route::Logout,
        Route::Register,
        Route::Settings,
        Route::NewArticle,
        Route::Article(Slug::new("s".to_string())),
        Route::EditArticle(Slug::new("s-2".to_string())),
        Route::Profile(Username::new("u".to_string())),
    ];
    for r in routes {
        let back = Route::from_path(&r.path()).expect("a route reads back");
        assert!(same_route(&back, &r));
    }
    assert!(matches!(Route::from_path(&Route::Root.path()), Ok(Route::Home)));
}
