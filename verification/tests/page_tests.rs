use realworld::article::{Article, Comment, CommentId, Tag, Timestamp};
use realworld::author::{Author, FollowedAuthor, UnfollowedAuthor};
use realworld::avatar::Avatar;
use realworld::credentials::Credentials;
use realworld::global_msg::GMsg;
use realworld::page::article::{
    self as article_page, ArticleButton, CommentForm, CommentText, Msg, can_delete_comment,
};
use realworld::page::home::{self as home_page, FeedTab};
use realworld::page::profile::{self as profile_page, FollowButton, ProfileContent};
use realworld::page::status::{Shown, Status};
use realworld::page::blank;
use realworld::page_number::PageNumber;
use realworld::paginated_list::PaginatedList;
use realworld::profile::Profile;
use realworld::route::Route;
use realworld::session::Session;
use realworld::slug::Slug;
use realworld::username::Username;
use realworld::viewer::Viewer;

fn viewer(name: &str) -> Viewer {
    Viewer::new(
        Avatar::new(None),
        Credentials { username: Username::new(name.to_string()), auth_token: "tok".to_string() },
    )
}

fn profile() -> Profile {
    Profile { bio: None, avatar: Avatar::new(None) }
}

fn other_author(following: bool) -> Author {
    if following {
        Author::Following(FollowedAuthor(Username::new("anna".into()), profile()))
    } else {
        Author::NotFollowing(UnfollowedAuthor(Username::new("anna".into()), profile()))
    }
}

fn article(author: Author, favorited: bool) -> Article {
    Article {
        title: "Title".into(),
        slug: Slug::new("title".into()),
        body: "body".into(),
        created_at: Timestamp { value: "2020-01-01T00:00:00Z".into() },
        updated_at: Timestamp { value: "2020-01-01T00:00:00Z".into() },
        tag_list: vec![Tag::new("t".into())],
        description: "d".into(),
        author,
        favorited,
        favorites_count: 12,
    }
}

fn comment(id: &str) -> Comment {
    Comment {
        id: CommentId { value: id.into() },
        body: format!("comment {}", id),
        created_at: Timestamp { value: "x".into() },
        updated_at: Timestamp { value: "x".into() },
        author: other_author(false),
    }
}

fn ids(model: &article_page::Model) -> Vec<String> {
    match &model.comments {
        Status::Loaded((_, cs)) => cs.iter().map(|c| c.id.as_str().to_string()).collect(),
        _ => panic!("comments not loaded"),
    }
}

fn editing_text(model: &article_page::Model) -> Option<String> {
    match &model.comments {
        Status::Loaded((CommentText::Editing(t), _)) => Some(t.clone()),
        _ => None,
    }
}

#[test]
fn article_page_flow() {
    let slug = Slug::new("title".into());
    let (mut m, cmds) = article_page::init(Session::new(Some(viewer("jake"))), &slug);
    assert_eq!(cmds.len(), 3);
    assert!(matches!(m.article, Status::Loading));
    assert_eq!(m.title_prefix(), "Article");

    let e = m.update(Msg::SlowLoadThresholdPassed);
    assert!(e.commands.is_empty());
    assert!(matches!(m.article, Status::LoadingSlowly));
    assert!(matches!(m.comments, Status::LoadingSlowly));

    m.update(Msg::LoadArticleCompleted(Ok(article(other_author(false), true))));
    assert_eq!(m.title_prefix(), "Title");
    m.update(Msg::LoadCommentsCompleted(Ok(vec![comment("1"), comment("2"), comment("1")].into())));
    assert_eq!(editing_text(&m), Some(String::new()));

    // an empty comment is not posted
    let e = m.update(Msg::PostCommentClicked(slug.clone()));
    assert!(e.commands.is_empty());
    assert!(e.skip);

    m.update(Msg::CommentTextEntered("Nice!".into()));
    assert_eq!(editing_text(&m), Some("Nice!".into()));
    let e = m.update(Msg::PostCommentClicked(slug.clone()));
    assert!(matches!(&e.commands[..], [article_page::Command::CreateComment(_, t)] if t == "Nice!"));
    assert!(matches!(&m.comments, Status::Loaded((CommentText::Sending(t), _)) if t == "Nice!"));

    // while sending, the text cannot change
    let e = m.update(Msg::CommentTextEntered("other".into()));
    assert!(matches!(&e.commands[..], [article_page::Command::LogError(_)]));

    // a failed post goes back to editing the same text and shows the errors
    let e = m.update(Msg::PostCommentCompleted(Err(vec!["boom".into()])));
    assert!(matches!(&e.commands[..], [article_page::Command::LogErrors(es)] if es == &vec!["boom".to_string()]));
    assert_eq!(m.errors, vec!["boom".to_string()]);
    assert_eq!(editing_text(&m), Some("Nice!".into()));

    m.update(Msg::DismissErrorsClicked);
    assert!(m.errors.is_empty());

    // a posted comment comes first and the text is cleared
    m.update(Msg::PostCommentCompleted(Ok(comment("3"))));
    assert_eq!(ids(&m), vec!["3", "1", "2", "1"]);
    assert_eq!(editing_text(&m), Some(String::new()));

    // deleting a comment removes every comment with that identifier
    m.update(Msg::DeleteCommentCompleted(Ok(CommentId { value: "1".into() })));
    assert_eq!(ids(&m), vec!["3", "2"]);

    // following updates the author of the loaded article
    m.update(Msg::FollowChangeCompleted(Ok(other_author(true))));
    assert!(matches!(&m.article, Status::Loaded(a) if matches!(a.author, Author::Following(_))));

    let e = m.update(Msg::DeleteArticleCompleted(Ok(())));
    assert!(matches!(&e.commands[..], [article_page::Command::GoTo(Route::Home)]));

    let e = m.update(Msg::FavoriteClicked(slug.clone()));
    assert!(matches!(&e.commands[..], [article_page::Command::Unfavorite(_)]));
    assert!(e.skip);
    let e = m.update(Msg::UnfavoriteClicked(slug.clone()));
    assert!(matches!(&e.commands[..], [article_page::Command::Favorite(_)]));

    let e = m.update(Msg::Unreachable);
    assert!(matches!(&e.commands[..], [article_page::Command::LogError(t)] if t == "Unreachable!"));

    let cmds = m.sink(GMsg::SessionChanged(Session::Guest));
    assert!(matches!(&cmds[..], [article_page::Command::GoTo(Route::Home)]));
    assert!(m.session().viewer().is_none());
}

#[test]
fn article_page_views() {
    let slug = Slug::new("title".into());
    let (m, _) = article_page::init(Session::new(Some(viewer("jake"))), &slug);
    let own = Author::IsViewer(
        Credentials { username: Username::new("jake".into()), auth_token: "tok".into() },
        profile(),
    );
    let b = m.buttons(&article(own, false));
    assert!(matches!(&b[..], [ArticleButton::Edit(_), ArticleButton::Delete(_)]));
    let b = m.buttons(&article(other_author(true), true));
    assert!(matches!(&b[..], [ArticleButton::Unfollow(_), ArticleButton::Favorite(f)]
        if f.favorited && f.label == " Favorite Article (12)"));
    let b = m.buttons(&article(other_author(false), false));
    assert!(matches!(&b[..], [ArticleButton::Follow(_), ArticleButton::Favorite(f)] if !f.favorited));
    assert!(matches!(m.comment_form(&CommentText::Sending("x".into())), CommentForm::Form(t, true) if t == "x"));
    assert!(!can_delete_comment(&comment("1")));

    let (g, _) = article_page::init(Session::Guest, &slug);
    assert!(g.buttons(&article(other_author(true), true)).is_empty());
    assert!(matches!(g.comment_form(&CommentText::Editing("x".into())), CommentForm::SignInPrompt));
}

#[test]
fn home_page_flow() {
    let (mut m, cmds) = home_page::init::<()>(Session::new(Some(viewer("jake"))));
    assert!(matches!(m.feed_tab, FeedTab::YourFeed(_)));
    assert!(matches!(&cmds[..], [home_page::Command::NotifyOnSlowLoad, home_page::Command::LoadTags,
        home_page::Command::LoadFeed(FeedTab::YourFeed(_), p)] if p.to_usize() == 1));
    let tabs = m.tabs();
    assert_eq!(tabs.len(), 2);
    assert!(tabs[0].active && tabs[0].title == "Your Feed");

    let cmds = m.update::<()>(home_page::Msg::FeedPageClicked(PageNumber::new(3).unwrap()));
    assert_eq!(m.feed_page.to_usize(), 3);
    assert!(matches!(&cmds[..], [home_page::Command::LoadFeed(_, p), home_page::Command::ScrollToTop] if p.to_usize() == 3));

    let cmds = m.update::<()>(home_page::Msg::TagClicked(Tag::new("rust".into())));
    assert_eq!(m.feed_page.to_usize(), 1);
    assert!(matches!(&cmds[..], [home_page::Command::LoadFeed(FeedTab::TagFeed(t), _)] if t.to_string() == "rust"));
    let tabs = m.tabs();
    assert_eq!(tabs.iter().map(|t| t.title.clone()).collect::<Vec<_>>(), vec!["Your Feed", "Global Feed", "#rust"]);
    assert!(tabs[2].active && !tabs[0].active && !tabs[1].active);

    m.update::<()>(home_page::Msg::FeedLoadCompleted(Ok(PaginatedList { values: vec![], per_page: 10, total: 0 })));
    assert!(matches!(m.feed, Status::Loaded(_)));
    let cmds = m.update::<()>(home_page::Msg::TagsLoadCompleted(Err(vec!["e".into()])));
    assert!(matches!(m.tags, Status::Failed));
    assert!(matches!(&cmds[..], [home_page::Command::LogErrors(_)]));

    m.sink(GMsg::SessionChanged(Session::Guest));
    m.update::<()>(home_page::Msg::TabClicked(FeedTab::GlobalFeed));
    let tabs = m.tabs();
    assert_eq!(tabs.len(), 1);
    assert_eq!(tabs[0].title, "Global Feed");
}

#[test]
fn profile_page_flow() {
    let jake = Username::new("jake".into());
    let (mut m, cmds) = profile_page::init::<()>(Session::new(Some(viewer("jake"))), jake.clone());
    assert_eq!(cmds.len(), 3);
    assert_eq!(m.title(), "My Profile");
    assert_eq!(m.author.username().as_str(), "jake");

    let e = m.update::<()>(profile_page::Msg::FollowClicked);
    assert!(e.skip);
    assert!(matches!(&e.commands[..], [profile_page::Command::Follow(u)] if u.as_str() == "jake"));

    m.update::<()>(profile_page::Msg::AuthorLoadCompleted(Ok(other_author(false))));
    assert_eq!(m.title(), "Profile - anna");
    let author = other_author(false);
    assert!(matches!(m.follow_button(&author), FollowButton::Follow(u) if u.as_str() == "anna"));
    assert!(matches!(m.follow_button(&other_author(true)), FollowButton::Unfollow(_)));

    let e = m.update::<()>(profile_page::Msg::TabClicked(profile_page::FeedTab::FavoritedArticles));
    assert!(matches!(&e.commands[..], [profile_page::Command::LoadFeed(u, profile_page::FeedTab::FavoritedArticles, p)]
        if u.as_str() == "anna" && p.to_usize() == 1));

    m.update::<()>(profile_page::Msg::SlowLoadThresholdPassed);
    assert!(matches!(&m.feed, profile_page::Status::LoadingSlowly(u) if u.as_str() == "jake"));

    let e = m.update::<()>(profile_page::Msg::FeedLoadCompleted(Err((Username::new("anna".into()), vec!["x".into()]))));
    assert!(matches!(&m.feed, profile_page::Status::Failed(u) if u.as_str() == "anna"));
    assert_eq!(m.errors, vec!["x".to_string()]);
    assert!(matches!(&e.commands[..], [profile_page::Command::LogErrors(_)]));

    let (g, _) = profile_page::init::<()>(Session::Guest, Username::new("anna".into()));
    assert_eq!(g.title(), "Profile");
    assert!(matches!(g.follow_button(&author), FollowButton::Hidden));
}

#[test]
fn feed_messages_wait_for_the_feed() {
    let (mut h, _) = home_page::init::<u8>(Session::Guest);
    let cmds = h.update(home_page::Msg::FeedMsg(7u8));
    assert!(matches!(&cmds[..], [home_page::Command::LogError(t)] if t == "FeedMsg can be handled only if Status is Loaded"));
    assert!(matches!(h.feed_shown(), Shown::Nothing));
    h.update::<u8>(home_page::Msg::SlowLoadThresholdPassed);
    assert!(matches!(h.feed_shown(), Shown::LoadingIcon));
    assert!(matches!(h.tags_shown(), Shown::LoadingIcon));
    h.update::<u8>(home_page::Msg::FeedLoadCompleted(Ok(PaginatedList { values: vec![], per_page: 10, total: 3 })));
    assert!(matches!(h.feed_shown(), Shown::Loaded(l) if l.total == 3));
    let cmds = h.update(home_page::Msg::FeedMsg(7u8));
    assert!(matches!(&cmds[..], [home_page::Command::UpdateFeed(7)]));

    let (mut p, _) = profile_page::init::<u8>(Session::Guest, Username::new("anna".into()));
    assert!(matches!(p.content(), ProfileContent::Nothing));
    let e = p.update(profile_page::Msg::FeedMsg(1u8));
    assert!(matches!(&e.commands[..], [profile_page::Command::LogError(_)]));
    p.update::<u8>(profile_page::Msg::AuthorLoadCompleted(Err((Username::new("anna".into()), vec!["x".into()]))));
    assert!(matches!(p.content(), ProfileContent::LoadingError));
    p.update::<u8>(profile_page::Msg::AuthorLoadCompleted(Ok(other_author(false))));
    assert!(matches!(p.content(), ProfileContent::Profile(a, es) if a.username().as_str() == "anna" && es.len() == 1));
    p.update::<u8>(profile_page::Msg::FeedLoadCompleted(Ok(PaginatedList { values: vec![], per_page: 5, total: 0 })));
    assert!(matches!(p.feed_shown(), Shown::Loaded(_)));
    let e = p.update(profile_page::Msg::FeedMsg(2u8));
    assert!(matches!(&e.commands[..], [profile_page::Command::UpdateFeed(2)]));
}

#[test]
fn blank_titles() {
    assert_eq!(blank::title(), "Blank");
    assert_eq!(blank::not_found_title(), "Page Not Found");
}
