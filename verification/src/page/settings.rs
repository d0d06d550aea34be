//! The settings page: the viewer's settings in a form; its state, and how
//! each message changes it and what it asks to be done.
//!
//! The page does not know the rules of its form: how a field is written
//! into the form and how a form is checked before it is sent are handed to
//! `update` as functions.

use vstd::prelude::*;
use crate::global_msg::GMsg;
use crate::page::status::{Shown, Status};
use crate::problem::Problem;
use crate::route::Route;
use crate::session::Session;
use crate::viewer::Viewer;

verus! {

/// The state of the settings page, with its form `F`.
pub struct Model<F> {
    pub session: Session,
    pub problems: Vec<Problem>,
    pub status: Status<F>,
}

/// A message to the settings page; `D` is a changed field of the form.
pub enum Msg<F, D> {
    FormSubmitted,
    FieldChanged(D),
    FormLoadCompleted(Result<F, Vec<Problem>>),
    SaveCompleted(Result<Viewer, Vec<Problem>>),
    SlowLoadThresholdPassed,
    Unreachable,
}

/// What the settings page asks to be done; `V` is a checked form.
pub enum Command<V> {
    /// Tell the page when loading takes long.
    NotifyOnSlowLoad,
    LoadSettings,
    UpdateSettings(V),
    StoreViewer(Viewer),
    SendGMsg(GMsg),
    GoTo(Route),
    LogError(String),
}

/// The settings page as it opens, loading the settings.
pub fn init<F, V>(session: Session) -> (r: (Model<F>, Vec<Command<V>>))
    ensures
        r.0.session == session,
        r.0.problems@.len() == 0,
        r.0.status is Loading,
        r.1@ == seq![Command::<V>::NotifyOnSlowLoad, Command::<V>::LoadSettings],
{
    let mut commands: Vec<Command<V>> = Vec::new();
    commands.push(Command::NotifyOnSlowLoad);
    commands.push(Command::LoadSettings);
    (Model { session, problems: Vec::new(), status: Status::Loading }, commands)
}

/// What the settings page shows: a notice to sign in for a guest, else the
/// problems and the form as its status shows it.
pub enum Content<'a, F> {
    SignInNotice,
    Settings(&'a Vec<Problem>, Shown<'a, F>),
}

impl<F> Model<F> {
    /// The session of the page.
    pub fn session(&self) -> (r: &Session)
        ensures
            *r == self.session,
    {
        &self.session
    }

    /// The session that the page hands on when it is left.
    pub fn into_session(self) -> (r: Session)
        ensures
            r == self.session,
    {
        self.session
    }

    /// A message to all pages: a new session is kept and the page goes home.
    pub fn sink<V>(&mut self, g_msg: GMsg) -> (r: Vec<Command<V>>)
        ensures
            match g_msg {
                GMsg::SessionChanged(session) => {
                    &&& final(self).session == session
                    &&& final(self).problems == old(self).problems
                    &&& final(self).status == old(self).status
                    &&& r@ == seq![Command::<V>::GoTo(Route::Home)]
                },
                _ => *final(self) == *old(self) && r@.len() == 0,
            },
    {
        match g_msg {
            GMsg::SessionChanged(session) => {
                self.session = session;
                let mut r: Vec<Command<V>> = Vec::new();
                r.push(Command::GoTo(Route::Home));
                r
            },
            _ => Vec::new(),
        }
    }

    /// What the page shows.
    pub fn content(&self) -> (r: Content<'_, F>)
        ensures
            self.session.spec_viewer() is None ==> r is SignInNotice,
            self.session.spec_viewer() is Some ==> (r matches Content::Settings(problems, shown)
                && problems == &self.problems && match self.status {
                Status::Loading => shown is Nothing,
                Status::LoadingSlowly => shown is LoadingIcon,
                Status::Failed => shown is LoadingError,
                Status::Loaded(f) => shown == Shown::Loaded(&f),
            }),
    {
        if self.session.viewer().is_some() {
            Content::Settings(&self.problems, self.status.shown())
        } else {
            Content::SignInNotice
        }
    }

    /// Handles a message: changes the state as the message says and returns
    /// what is to be done. `upsert` writes a changed field into the form;
    /// `check` trims and checks the form before it is sent.
    pub fn update<D, V, U, C>(&mut self, msg: Msg<F, D>, upsert: U, check: C) -> (r: Vec<Command<V>>) where
        U: Fn(&F, D) -> F,
        C: Fn(&F) -> Result<V, Vec<Problem>>,

        requires
            forall|f: &F, d: D| #[trigger] upsert.requires((f, d)),
            forall|f: &F| #[trigger] check.requires((f,)),
        ensures
            final(self).session == old(self).session,
            match msg {
                Msg::FormSubmitted => match old(self).status {
                    Status::Loaded(form) => final(self).status == old(self).status && exists|
                        checked: Result<V, Vec<Problem>>,
                    |
                        #![trigger check.ensures((&form,), checked)]
                        check.ensures((&form,), checked) && match checked {
                            Ok(valid) => final(self).problems@.len() == 0 && r@ == seq![
                                Command::UpdateSettings(valid),
                            ],
                            Err(problems) => final(self).problems == problems && r@.len() == 0,
                        },
                    _ => *final(self) == *old(self) && r@.len() == 0,
                },
                Msg::FieldChanged(field) => {
                    &&& match old(self).status {
                        Status::Loaded(form) => (final(self).status matches Status::Loaded(f)
                            && upsert.ensures((&form, field), f)),
                        _ => final(self).status == old(self).status,
                    }
                    &&& final(self).problems == old(self).problems
                    &&& r@.len() == 0
                },
                Msg::FormLoadCompleted(Ok(form)) => {
                    &&& final(self).status == Status::Loaded(form)
                    &&& final(self).problems == old(self).problems
                    &&& r@.len() == 0
                },
                Msg::FormLoadCompleted(Err(problems)) => {
                    &&& final(self).status is Failed
                    &&& final(self).problems == problems
                    &&& r@.len() == 0
                },
                Msg::SaveCompleted(Ok(viewer)) => {
                    &&& *final(self) == *old(self)
                    &&& r@ == seq![
                        Command::<V>::StoreViewer(viewer),
                        Command::<V>::SendGMsg(GMsg::SessionChanged(Session::LoggedIn(viewer))),
                    ]
                },
                Msg::SaveCompleted(Err(problems)) => {
                    &&& final(self).problems == problems
                    &&& final(self).status == old(self).status
                    &&& r@.len() == 0
                },
                Msg::SlowLoadThresholdPassed => {
                    &&& final(self).status == if old(self).status is Loading {
                        Status::LoadingSlowly
                    } else {
                        old(self).status
                    }
                    &&& final(self).problems == old(self).problems
                    &&& r@.len() == 0
                },
                Msg::Unreachable => {
                    &&& *final(self) == *old(self)
                    &&& r@.len() == 1
                    &&& r@[0] matches Command::LogError(m) && m@ == "Unreachable!"@
                },
            },
    {
        let mut r: Vec<Command<V>> = Vec::new();
        match msg {
            Msg::FormSubmitted => {
                if let Status::Loaded(form) = &self.status {
                    match check(form) {
                        Ok(valid) => {
                            self.problems = Vec::new();
                            r.push(Command::UpdateSettings(valid));
                        },
                        Err(problems) => {
                            self.problems = problems;
                        },
                    }
                }
            },
            Msg::FieldChanged(field) => {
                let mut status: Status<F> = Status::Loading;
                core::mem::swap(&mut status, &mut self.status);
                match status {
                    Status::Loaded(form) => {
                        self.status = Status::Loaded(upsert(&form, field));
                    },
                    other => {
                        self.status = other;
                    },
                }
            },
            Msg::FormLoadCompleted(Ok(form)) => {
                self.status = Status::Loaded(form);
            },
            Msg::FormLoadCompleted(Err(problems)) => {
                self.problems = problems;
                self.status = Status::Failed;
            },
            Msg::SaveCompleted(Ok(viewer)) => {
                r.push(Command::StoreViewer(viewer.clone()));
                r.push(Command::SendGMsg(GMsg::SessionChanged(Session::LoggedIn(viewer))));
            },
            Msg::SaveCompleted(Err(problems)) => {
                self.problems = problems;
            },
            Msg::SlowLoadThresholdPassed => {
                if let Status::Loading = self.status {
                    self.status = Status::LoadingSlowly;
                }
            },
            Msg::Unreachable => {
                r.push(Command::LogError(String::from_str("Unreachable!")));
            },
        }
        r
    }
}

} // verus!
