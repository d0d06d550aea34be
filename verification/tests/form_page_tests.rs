use realworld::article::{Article, Tag, Timestamp};
use realworld::author::{Author, UnfollowedAuthor};
use realworld::avatar::Avatar;
use realworld::credentials::Credentials;
use realworld::global_msg::GMsg;
use realworld::page::article_editor::{self as editor, Content, SaveButton, Status as EditorStatus};
use realworld::page::login;
use realworld::page::register;
use realworld::page::settings;
use realworld::page::status::{Shown, Status};
use realworld::problem::Problem;
use realworld::profile::Profile;
use realworld::route::Route;
use realworld::session::Session;
use realworld::slug::Slug;
use realworld::username::Username;
use realworld::viewer::Viewer;

fn viewer() -> Viewer {
    Viewer::new(
        Avatar::new(None),
        Credentials { username: Username::new("jake".into()), auth_token: "t".into() },
    )
}

fn article(slug: &str) -> Article {
    Article {
        title: "T".into(),
        slug: Slug::new(slug.into()),
        body: "B".into(),
        created_at: Timestamp { value: "c".into() },
        updated_at: Timestamp { value: "u".into() },
        tag_list: vec![Tag::new("x".into())],
        description: "D".into(),
        author: Author::NotFollowing(UnfollowedAuthor(
            Username::new("anna".into()),
            Profile { bio: None, avatar: Avatar::new(None) },
        )),
        favorited: false,
        favorites_count: 0,
    }
}

// A form of one text field, valid when it is not blank after trimming.
type TextForm = String;

fn upsert(form: &TextForm, field: String) -> TextForm {
    let _ = form;
    field
}

fn check(form: &TextForm) -> Result<String, Vec<Problem>> {
    if form.trim().is_empty() {
        Err(vec![Problem::InvalidEntry("text".into(), "can't be blank".into())])
    } else {
        Ok(form.trim().to_string())
    }
}

fn into_form(article: Article) -> TextForm {
    article.title
}

#[test]
fn editor_new_article() {
    let mut m = editor::init_new(Session::new(Some(viewer())), String::new());
    assert_eq!(m.title(), "New Article");
    let r = m.update::<String, String, _, _, _>(editor::Msg::FormSubmitted, upsert, check, into_form);
    assert!(r.is_empty());
    assert!(matches!(&m.status, EditorStatus::EditingNew(ps, _) if ps.len() == 1));
    m.update::<String, String, _, _, _>(editor::Msg::FieldChanged(" hello ".into()), upsert, check, into_form);
    let r = m.update::<String, String, _, _, _>(editor::Msg::FormSubmitted, upsert, check, into_form);
    assert!(matches!(&r[..], [editor::Command::CreateArticle(v)] if v == "hello"));
    assert!(matches!(&m.status, EditorStatus::Creating(f) if f == " hello "));
    assert!(matches!(m.content(), Content::Form(_, None, SaveButton::CreateArticle, true)));

    // a field cannot change while the article is being sent
    let r = m.update::<String, String, _, _, _>(editor::Msg::FieldChanged("x".into()), upsert, check, into_form);
    assert!(matches!(&r[..], [editor::Command::LogError(_)]));

    let problems = vec![Problem::new_server_error("title taken".into())];
    m.update::<String, String, _, _, _>(editor::Msg::CreateCompleted(Err(problems)), upsert, check, into_form);
    assert!(matches!(&m.status, EditorStatus::EditingNew(ps, f) if ps.len() == 1 && f == " hello "));

    let r = m.update::<String, String, _, _, _>(editor::Msg::CreateCompleted(Ok(article("new-one"))), upsert, check, into_form);
    assert!(matches!(&r[..], [editor::Command::GoTo(Route::Article(s))] if s.as_str() == "new-one"));
}

#[test]
fn editor_existing_article() {
    let slug = Slug::new("old".into());
    let (mut m, cmds) = editor::init_edit::<TextForm, String>(Session::Guest, &slug);
    assert!(matches!(&cmds[..], [editor::Command::NotifyOnSlowLoad, editor::Command::LoadArticle(s)] if s.as_str() == "old"));
    assert_eq!(m.title(), "Edit Article - old");
    assert!(matches!(m.content(), Content::Nothing));
    m.update::<String, String, _, _, _>(editor::Msg::SlowLoadThresholdPassed, upsert, check, into_form);
    assert!(matches!(m.content(), Content::LoadingIcon));
    m.update::<String, String, _, _, _>(editor::Msg::ArticleLoadCompleted(Ok(article("old"))), upsert, check, into_form);
    assert!(matches!(&m.status, EditorStatus::Editing(s, ps, f) if s.as_str() == "old" && ps.is_empty() && f == "T"));
    let r = m.update::<String, String, _, _, _>(editor::Msg::FormSubmitted, upsert, check, into_form);
    assert!(matches!(&r[..], [editor::Command::UpdateArticle(v, s)] if v == "T" && s.as_str() == "old"));
    assert!(matches!(&m.status, EditorStatus::Saving(..)));
    m.update::<String, String, _, _, _>(editor::Msg::EditCompleted(Err(vec![])), upsert, check, into_form);
    assert!(matches!(&m.status, EditorStatus::Editing(..)));
    m.update::<String, String, _, _, _>(
        editor::Msg::ArticleLoadCompleted(Err((Slug::new("old".into()), vec![Problem::new_server_error("gone".into())]))),
        upsert, check, into_form,
    );
    assert!(matches!(m.content(), Content::LoadingFailed(ps) if ps.len() == 1));
    let cmds = m.g_msg_handler::<String>(GMsg::SessionChanged(Session::Guest));
    assert!(matches!(&cmds[..], [editor::Command::GoTo(Route::Home)]));
}

#[test]
fn settings_flow() {
    let (mut m, cmds) = settings::init::<TextForm, String>(Session::new(Some(viewer())));
    assert!(matches!(&cmds[..], [settings::Command::NotifyOnSlowLoad, settings::Command::LoadSettings]));
    // nothing to submit before the form is loaded
    let r = m.update::<String, String, _, _>(settings::Msg::FormSubmitted, upsert, check);
    assert!(r.is_empty());
    m.update::<String, String, _, _>(settings::Msg::SlowLoadThresholdPassed, upsert, check);
    assert!(matches!(m.status, Status::LoadingSlowly));
    assert!(matches!(m.content(), settings::Content::Settings(_, Shown::LoadingIcon)));
    m.update::<String, String, _, _>(settings::Msg::FormLoadCompleted(Ok("  ".into())), upsert, check);
    let r = m.update::<String, String, _, _>(settings::Msg::FormSubmitted, upsert, check);
    assert!(r.is_empty());
    assert_eq!(m.problems.len(), 1);
    m.update::<String, String, _, _>(settings::Msg::FieldChanged("bio".into()), upsert, check);
    let r = m.update::<String, String, _, _>(settings::Msg::FormSubmitted, upsert, check);
    assert!(m.problems.is_empty());
    assert!(matches!(&r[..], [settings::Command::UpdateSettings(v)] if v == "bio"));
    let r = m.update::<String, String, _, _>(settings::Msg::SaveCompleted(Ok(viewer())), upsert, check);
    assert!(matches!(&r[..], [settings::Command::StoreViewer(_), settings::Command::SendGMsg(GMsg::SessionChanged(Session::LoggedIn(_)))]));
    m.update::<String, String, _, _>(settings::Msg::FormLoadCompleted(Err(vec![Problem::new_server_error("e".into())])), upsert, check);
    assert!(matches!(m.status, Status::Failed));
    let r = m.update::<String, String, _, _>(settings::Msg::Unreachable, upsert, check);
    assert!(matches!(&r[..], [settings::Command::LogError(t)] if t == "Unreachable!"));
}

#[test]
fn register_flow() {
    let mut m = register::init(Session::Guest, String::new());
    let r = m.update::<String, String, _, _>(register::Msg::FormSubmitted, upsert, check);
    assert!(r.is_empty());
    assert_eq!(m.problems.len(), 1);
    m.update::<String, String, _, _>(register::Msg::FieldChanged("jake".into()), upsert, check);
    let r = m.update::<String, String, _, _>(register::Msg::FormSubmitted, upsert, check);
    assert!(m.problems.is_empty());
    assert!(matches!(&r[..], [register::Command::Register(v)] if v == "jake"));
    let r = m.update::<String, String, _, _>(register::Msg::RegisterCompleted(Ok(viewer())), upsert, check);
    assert!(matches!(&r[..], [register::Command::StoreViewer(_), register::Command::SendGMsg(_)]));
    let r = m.sink::<String>(GMsg::SessionChanged(Session::new(Some(viewer()))));
    assert!(matches!(&r[..], [register::Command::GoTo(Route::Home)]));
    assert!(m.session().viewer().is_some());
}

fn check_login(form: &login::Form) -> Result<(String, String), Vec<Problem>> {
    if form.email.trim().is_empty() {
        Err(vec![Problem::InvalidEntry("email".into(), "can't be blank".into())])
    } else {
        Ok((form.email.trim().to_string(), form.password.clone()))
    }
}

#[test]
fn login_flow() {
    let mut m = login::init(Session::Guest);
    let r = m.update::<(String, String), _>(login::Msg::SubmittedForm, check_login);
    assert!(r.is_empty());
    assert_eq!(m.problems.len(), 1);
    m.update::<(String, String), _>(login::Msg::EnteredEmail(" j@x.io ".into()), check_login);
    m.update::<(String, String), _>(login::Msg::EnteredPassword("secret".into()), check_login);
    assert_eq!(m.form.email, " j@x.io ");
    let r = m.update::<(String, String), _>(login::Msg::SubmittedForm, check_login);
    assert!(m.problems.is_empty());
    assert!(matches!(&r[..], [login::Command::Login((e, p))] if e == "j@x.io" && p == "secret"));
    let r = m.update::<(String, String), _>(login::Msg::CompletedLogin(Ok(viewer())), check_login);
    assert!(matches!(&r[..], [login::Command::StoreViewer(_), login::Command::SendGMsg(GMsg::SessionChanged(Session::LoggedIn(_)))]));
    m.update::<(String, String), _>(login::Msg::CompletedLogin(Err(vec![Problem::new_server_error("email or password is invalid".into())])), check_login);
    assert_eq!(m.problems.len(), 1);
}

#[test]
fn settings_for_a_guest() {
    let (m, _) = settings::init::<TextForm, String>(Session::Guest);
    assert!(matches!(m.content(), settings::Content::SignInNotice));
}
