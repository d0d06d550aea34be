//! The editor of articles, for a new article or an existing one: its state,
//! and how each message changes it and what it asks to be done.
//!
//! The page does not know the rules of its form: how a field is written
//! into the form, how a form is checked before it is sent, and what form an
//! article fills. Each of them is handed to `update` as a function.

use vstd::prelude::*;
use crate::article::Article;
use crate::global_msg::GMsg;
use crate::problem::Problem;
use crate::route::Route;
use crate::session::Session;
use crate::slug::Slug;

verus! {

/// Where the editor stands, with the form `F` it shows.
pub enum Status<F> {
    /// Loading the article to edit.
    Loading(Slug),
    LoadingSlowly(Slug),
    LoadingFailed(Slug, Vec<Problem>),
    /// Sending the changes of an article.
    Saving(Slug, F),
    /// Editing an article, with the problems of the last attempt to send it.
    Editing(Slug, Vec<Problem>, F),
    /// Editing a new article, with the problems of the last attempt.
    EditingNew(Vec<Problem>, F),
    /// Sending a new article.
    Creating(F),
}

impl<F> Status<F> {
    /// The slug of the article being edited; none for a new article.
    pub open spec fn spec_slug(&self) -> Option<Slug> {
        match self {
            Status::Loading(s) | Status::LoadingSlowly(s) | Status::LoadingFailed(s, _)
            | Status::Saving(s, _) | Status::Editing(s, _, _) => Some(*s),
            Status::EditingNew(..) | Status::Creating(..) => None,
        }
    }

    /// The slug of the article being edited; none for a new article.
    pub fn slug(&self) -> (r: Option<&Slug>)
        ensures
            r == match self.spec_slug() {
                Some(s) => Some(&s),
                None => None::<&Slug>,
            },
            self matches Status::Loading(s) ==> r == Some(s),
            self matches Status::LoadingSlowly(s) ==> r == Some(s),
            self matches Status::LoadingFailed(s, _) ==> r == Some(s),
            self matches Status::Saving(s, _) ==> r == Some(s),
            self matches Status::Editing(s, _, _) ==> r == Some(s),
            r is None <==> (self is EditingNew || self is Creating),
    {
        match self {
            Status::Loading(s) | Status::LoadingSlowly(s) | Status::LoadingFailed(s, _)
            | Status::Saving(s, _) | Status::Editing(s, _, _) => Some(s),
            Status::EditingNew(..) | Status::Creating(..) => None,
        }
    }
}

/// Every status that edits an existing article carries its slug, and only
/// a new article has none.
pub proof fn lemma_slug_of_status<F>(status: Status<F>)
    ensures
        status matches Status::Loading(s) ==> status.spec_slug() == Some(s),
        status matches Status::LoadingSlowly(s) ==> status.spec_slug() == Some(s),
        status matches Status::LoadingFailed(s, _) ==> status.spec_slug() == Some(s),
        status matches Status::Saving(s, _) ==> status.spec_slug() == Some(s),
        status matches Status::Editing(s, _, _) ==> status.spec_slug() == Some(s),
        status.spec_slug() is None <==> (status is EditingNew || status is Creating),
{
}

/// The state of the editor.
pub struct Model<F> {
    pub session: Session,
    pub status: Status<F>,
}

/// A message to the editor; `D` is a changed field of the form.
pub enum Msg<D> {
    FieldChanged(D),
    FormSubmitted,
    CreateCompleted(Result<Article, Vec<Problem>>),
    EditCompleted(Result<Article, Vec<Problem>>),
    ArticleLoadCompleted(Result<Article, (Slug, Vec<Problem>)>),
    SlowLoadThresholdPassed,
    NoOp,
}

/// What the editor asks to be done; `V` is a checked form.
pub enum Command<V> {
    /// Tell the page when loading takes long.
    NotifyOnSlowLoad,
    LoadArticle(Slug),
    CreateArticle(V),
    UpdateArticle(V, Slug),
    GoTo(Route),
    LogError(String),
}

/// The editor of a new article, with an empty form.
pub fn init_new<F>(session: Session, empty_form: F) -> (r: Model<F>)
    ensures
        r.session == session,
        r.status matches Status::EditingNew(problems, form) && problems@.len() == 0 && form
            == empty_form,
{
    Model { session, status: Status::EditingNew(Vec::new(), empty_form) }
}

/// The editor of an existing article, loading it.
pub fn init_edit<F, V>(session: Session, slug: &Slug) -> (r: (Model<F>, Vec<Command<V>>))
    ensures
        r.0.session == session,
        r.0.status == Status::<F>::Loading(*slug),
        r.1@ == seq![Command::<V>::NotifyOnSlowLoad, Command::<V>::LoadArticle(*slug)],
{
    let mut commands: Vec<Command<V>> = Vec::new();
    commands.push(Command::NotifyOnSlowLoad);
    commands.push(Command::LoadArticle(slug.clone()));
    (Model { session, status: Status::Loading(slug.clone()) }, commands)
}

/// Whether the commands are a single log of `text`.
pub open spec fn logs_error<V>(commands: Seq<Command<V>>, text: Seq<char>) -> bool {
    commands.len() == 1 && (commands[0] matches Command::LogError(m) && m@ == text)
}

/// What the editor shows for the signed-in viewer: nothing, the loading
/// sign, the problems of a failed load, or the form with its problems and a
/// save button that publishes or updates and is disabled while sending.
pub enum Content<'a, F> {
    Nothing,
    LoadingIcon,
    LoadingFailed(&'a Vec<Problem>),
    Form(&'a F, Option<&'a Vec<Problem>>, SaveButton, bool),
}

/// The kind of the save button.
pub enum SaveButton {
    CreateArticle,
    UpdateArticle,
}

impl<F> Model<F> {
    /// The session of the page.
    pub fn session(&self) -> (r: &Session)
        ensures
            *r == self.session,
    {
        &self.session
    }

    /// The session that the page hands on when it is left.
    pub fn into_session(self) -> (r: Session)
        ensures
            r == self.session,
    {
        self.session
    }

    /// A message to all pages: a new session is kept and the page goes home.
    pub fn g_msg_handler<V>(&mut self, g_msg: GMsg) -> (r: Vec<Command<V>>)
        ensures
            match g_msg {
                GMsg::SessionChanged(session) => {
                    &&& final(self).session == session
                    &&& final(self).status == old(self).status
                    &&& r@ == seq![Command::<V>::GoTo(Route::Home)]
                },
                _ => *final(self) == *old(self) && r@.len() == 0,
            },
    {
        match g_msg {
            GMsg::SessionChanged(session) => {
                self.session = session;
                let mut r: Vec<Command<V>> = Vec::new();
                r.push(Command::GoTo(Route::Home));
                r
            },
            _ => Vec::new(),
        }
    }

    /// The title of the editor: `Edit Article - <slug>` for an existing
    /// article, else `New Article`.
    pub fn title(&self) -> (r: String)
        ensures
            r@ == match self.status.spec_slug() {
                Some(s) => "Edit Article - "@ + s@,
                None => "New Article"@,
            },
            self.status matches Status::Loading(s) ==> r@ == "Edit Article - "@ + s@,
            self.status matches Status::LoadingSlowly(s) ==> r@ == "Edit Article - "@ + s@,
            self.status matches Status::LoadingFailed(s, _) ==> r@ == "Edit Article - "@ + s@,
            self.status matches Status::Saving(s, _) ==> r@ == "Edit Article - "@ + s@,
            self.status matches Status::Editing(s, _, _) ==> r@ == "Edit Article - "@ + s@,
            (self.status is EditingNew || self.status is Creating) ==> r@ == "New Article"@,
    {
        match self.status.slug() {
            Some(slug) => {
                let mut r = String::from_str("Edit Article - ");
                r.append(slug.as_str());
                r
            },
            None => String::from_str("New Article"),
        }
    }

    /// What the editor shows for the signed-in viewer.
    pub fn content(&self) -> (r: Content<'_, F>)
        ensures
            match self.status {
                Status::Loading(_) => r is Nothing,
                Status::LoadingSlowly(_) => r is LoadingIcon,
                Status::LoadingFailed(_, problems) => r == Content::<F>::LoadingFailed(&problems),
                Status::Saving(_, form) => r == Content::Form(&form, None, SaveButton::UpdateArticle, true),
                Status::Editing(_, problems, form) => r == Content::Form(
                    &form,
                    Some(&problems),
                    SaveButton::UpdateArticle,
                    false,
                ),
                Status::EditingNew(problems, form) => r == Content::Form(
                    &form,
                    Some(&problems),
                    SaveButton::CreateArticle,
                    false,
                ),
                Status::Creating(form) => r == Content::Form(&form, None, SaveButton::CreateArticle, true),
            },
    {
        match &self.status {
            Status::Loading(_) => Content::Nothing,
            Status::LoadingSlowly(_) => Content::LoadingIcon,
            Status::LoadingFailed(_, problems) => Content::LoadingFailed(problems),
            Status::Saving(_, form) => Content::Form(form, None, SaveButton::UpdateArticle, true),
            Status::Editing(_, problems, form) => Content::Form(
                form,
                Some(problems),
                SaveButton::UpdateArticle,
                false,
            ),
            Status::EditingNew(problems, form) => Content::Form(
                form,
                Some(problems),
                SaveButton::CreateArticle,
                false,
            ),
            Status::Creating(form) => Content::Form(form, None, SaveButton::CreateArticle, true),
        }
    }

    /// Handles a message: changes the state as the message says and returns
    /// what is to be done. `upsert` writes a changed field into a form;
    /// `check` trims and checks a form before it is sent; `into_form` gives
    /// the form that a loaded article fills.
    #[verifier::rlimit(40)]
    pub fn update<D, V, U, C, T>(&mut self, msg: Msg<D>, upsert: U, check: C, into_form: T) -> (r:
        Vec<Command<V>>) where
        U: Fn(&F, D) -> F,
        C: Fn(&F) -> Result<V, Vec<Problem>>,
        T: Fn(Article) -> F,

        requires
            !(msg is NoOp),
            forall|f: &F, d: D| #[trigger] upsert.requires((f, d)),
            forall|f: &F| #[trigger] check.requires((f,)),
            forall|a: Article| #[trigger] into_form.requires((a,)),
        ensures
            final(self).session == old(self).session,
            match msg {
                Msg::FieldChanged(field) => match old(self).status {
                    Status::Editing(slug, problems, form) => {
                        &&& (final(self).status matches Status::Editing(s, ps, f) && s == slug
                            && ps == problems && upsert.ensures((&form, field), f))
                        &&& r@.len() == 0
                    },
                    Status::EditingNew(problems, form) => {
                        &&& (final(self).status matches Status::EditingNew(ps, f) && ps == problems
                            && upsert.ensures((&form, field), f))
                        &&& r@.len() == 0
                    },
                    _ => {
                        &&& final(self).status == old(self).status
                        &&& logs_error(
                            r@,
                            "Can't edit the form, status has to be Editing or EditingNew!"@,
                        )
                    },
                },
                Msg::FormSubmitted => match old(self).status {
                    Status::Editing(slug, _, form) => exists|checked: Result<V, Vec<Problem>>|
                        #![trigger check.ensures((&form,), checked)]
                        check.ensures((&form,), checked) && match checked {
                            Ok(valid) => final(self).status == Status::Saving(slug, form) && r@
                                == seq![Command::UpdateArticle(valid, slug)],
                            Err(problems) => final(self).status == Status::Editing(
                                slug,
                                problems,
                                form,
                            ) && r@.len() == 0,
                        },
                    Status::EditingNew(_, form) => exists|checked: Result<V, Vec<Problem>>|
                        #![trigger check.ensures((&form,), checked)]
                        check.ensures((&form,), checked) && match checked {
                            Ok(valid) => final(self).status == Status::Creating(form) && r@ == seq![
                                Command::CreateArticle(valid),
                            ],
                            Err(problems) => final(self).status == Status::EditingNew(problems, form)
                                && r@.len() == 0,
                        },
                    _ => {
                        &&& final(self).status == old(self).status
                        &&& logs_error(
                            r@,
                            "Can't save the form, status has to be Editing or EditingNew!"@,
                        )
                    },
                },
                Msg::CreateCompleted(Ok(article)) | Msg::EditCompleted(Ok(article)) => {
                    &&& final(self).status == old(self).status
                    &&& r@ == seq![Command::<V>::GoTo(Route::Article(article.slug))]
                },
                Msg::CreateCompleted(Err(problems)) => {
                    &&& final(self).status == match old(self).status {
                        Status::Creating(form) => Status::EditingNew(problems, form),
                        other => other,
                    }
                    &&& r@.len() == 0
                },
                Msg::EditCompleted(Err(problems)) => {
                    &&& final(self).status == match old(self).status {
                        Status::Saving(slug, form) => Status::Editing(slug, problems, form),
                        other => other,
                    }
                    &&& r@.len() == 0
                },
                Msg::ArticleLoadCompleted(Ok(article)) => {
                    &&& (final(self).status matches Status::Editing(s, ps, f) && s == article.slug
                        && ps@.len() == 0 && into_form.ensures((article,), f))
                    &&& r@.len() == 0
                },
                Msg::ArticleLoadCompleted(Err((slug, problems))) => {
                    &&& final(self).status == Status::<F>::LoadingFailed(slug, problems)
                    &&& r@.len() == 0
                },
                Msg::SlowLoadThresholdPassed => {
                    &&& final(self).status == match old(self).status {
                        Status::Loading(slug) => Status::LoadingSlowly(slug),
                        other => other,
                    }
                    &&& r@.len() == 0
                },
                Msg::NoOp => true,
            },
    {
        let mut r: Vec<Command<V>> = Vec::new();
        let mut status = Status::Loading(Slug { value: String::new() });
        core::mem::swap(&mut status, &mut self.status);
        match msg {
            Msg::FieldChanged(field) => match status {
                Status::Editing(slug, problems, form) => {
                    let form = upsert(&form, field);
                    self.status = Status::Editing(slug, problems, form);
                },
                Status::EditingNew(problems, form) => {
                    let form = upsert(&form, field);
                    self.status = Status::EditingNew(problems, form);
                },
                other => {
                    self.status = other;
                    r.push(
                        Command::LogError(
                            String::from_str(
                                "Can't edit the form, status has to be Editing or EditingNew!",
                            ),
                        ),
                    );
                },
            },
            Msg::FormSubmitted => match status {
                Status::Editing(slug, problems, form) => {
                    let checked = check(&form);
                    match checked {
                        Ok(valid) => {
                            r.push(Command::UpdateArticle(valid, slug.clone()));
                            self.status = Status::Saving(slug, form);
                        },
                        Err(problems) => {
                            self.status = Status::Editing(slug, problems, form);
                        },
                    }
                },
                Status::EditingNew(problems, form) => {
                    let checked = check(&form);
                    match checked {
                        Ok(valid) => {
                            r.push(Command::CreateArticle(valid));
                            self.status = Status::Creating(form);
                        },
                        Err(problems) => {
                            self.status = Status::EditingNew(problems, form);
                        },
                    }
                },
                other => {
                    self.status = other;
                    r.push(
                        Command::LogError(
                            String::from_str(
                                "Can't save the form, status has to be Editing or EditingNew!",
                            ),
                        ),
                    );
                },
            },
            Msg::CreateCompleted(Ok(article)) | Msg::EditCompleted(Ok(article)) => {
                self.status = status;
                r.push(Command::GoTo(Route::Article(article.slug)));
            },
            Msg::CreateCompleted(Err(problems)) => match status {
                Status::Creating(form) => {
                    self.status = Status::EditingNew(problems, form);
                },
                other => {
                    self.status = other;
                },
            },
            Msg::EditCompleted(Err(problems)) => match status {
                Status::Saving(slug, form) => {
                    self.status = Status::Editing(slug, problems, form);
                },
                other => {
                    self.status = other;
                },
            },
            Msg::ArticleLoadCompleted(Ok(article)) => {
                let slug = article.slug.clone();
                let form = into_form(article);
                self.status = Status::Editing(slug, Vec::new(), form);
            },
            Msg::ArticleLoadCompleted(Err((slug, problems))) => {
                self.status = Status::LoadingFailed(slug, problems);
            },
            Msg::SlowLoadThresholdPassed => match status {
                Status::Loading(slug) => {
                    self.status = Status::LoadingSlowly(slug);
                },
                other => {
                    self.status = other;
                },
            },
            Msg::NoOp => {
                self.status = status;
            },
        }
        r
    }
}

} // verus!
