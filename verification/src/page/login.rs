//! The page to sign in: its state, and how each message changes it and
//! what it asks to be done.
//!
//! How the form is checked before it is sent is handed to `update` as a
//! function.

use vstd::prelude::*;
use crate::global_msg::GMsg;
use crate::problem::Problem;
use crate::route::Route;
use crate::session::Session;
use crate::viewer::Viewer;

verus! {

/// The form to sign in: an e-mail address and a password.
pub struct Form {
    pub email: String,
    pub password: String,
}

impl Default for Form {
    /// An empty form.
    fn default() -> (r: Self)
        ensures
            r.email@.len() == 0,
            r.password@.len() == 0,
    {
        Form { email: String::new(), password: String::new() }
    }
}

/// The state of the page to sign in.
pub struct Model {
    pub session: Session,
    pub problems: Vec<Problem>,
    pub form: Form,
}

/// A message to the page.
pub enum Msg {
    SubmittedForm,
    EnteredEmail(String),
    EnteredPassword(String),
    CompletedLogin(Result<Viewer, Vec<Problem>>),
}

/// What the page asks to be done; `V` is a checked form.
pub enum Command<V> {
    Login(V),
    StoreViewer(Viewer),
    SendGMsg(GMsg),
    GoTo(Route),
}

/// The page as it opens, with an empty form.
pub fn init(session: Session) -> (r: Model)
    ensures
        r.session == session,
        r.problems@.len() == 0,
        r.form.email@.len() == 0,
        r.form.password@.len() == 0,
{
    Model { session, problems: Vec::new(), form: Form::default() }
}

impl Model {
    /// The session of the page.
    pub fn session(&self) -> (r: &Session)
        ensures
            *r == self.session,
    {
        &self.session
    }

    /// The session that the page hands on when it is left.
    pub fn into_session(self) -> (r: Session)
        ensures
            r == self.session,
    {
        self.session
    }

    /// A message to all pages: a new session is kept and the page goes home.
    pub fn g_msg_handler<V>(&mut self, g_msg: GMsg) -> (r: Vec<Command<V>>)
        ensures
            match g_msg {
                GMsg::SessionChanged(session) => {
                    &&& final(self).session == session
                    &&& final(self).problems == old(self).problems
                    &&& final(self).form == old(self).form
                    &&& r@ == seq![Command::<V>::GoTo(Route::Home)]
                },
                _ => *final(self) == *old(self) && r@.len() == 0,
            },
    {
        match g_msg {
            GMsg::SessionChanged(session) => {
                self.session = session;
                let mut r: Vec<Command<V>> = Vec::new();
                r.push(Command::GoTo(Route::Home));
                r
            },
            _ => Vec::new(),
        }
    }

    /// Handles a message: changes the state as the message says and returns
    /// what is to be done. `check` trims and checks the form before it is
    /// sent.
    pub fn update<V, C>(&mut self, msg: Msg, check: C) -> (r: Vec<Command<V>>) where
        C: Fn(&Form) -> Result<V, Vec<Problem>>,

        requires
            forall|f: &Form| #[trigger] check.requires((f,)),
        ensures
            final(self).session == old(self).session,
            match msg {
                Msg::SubmittedForm => final(self).form == old(self).form && exists|
                    checked: Result<V, Vec<Problem>>,
                |
                    #![trigger check.ensures((&old(self).form,), checked)]
                    check.ensures((&old(self).form,), checked) && match checked {
                        Ok(valid) => final(self).problems@.len() == 0 && r@ == seq![
                            Command::Login(valid),
                        ],
                        Err(problems) => final(self).problems == problems && r@.len() == 0,
                    },
                Msg::EnteredEmail(email) => {
                    &&& final(self).form.email == email
                    &&& final(self).form.password == old(self).form.password
                    &&& final(self).problems == old(self).problems
                    &&& r@.len() == 0
                },
                Msg::EnteredPassword(password) => {
                    &&& final(self).form.password == password
                    &&& final(self).form.email == old(self).form.email
                    &&& final(self).problems == old(self).problems
                    &&& r@.len() == 0
                },
                Msg::CompletedLogin(Ok(viewer)) => {
                    &&& *final(self) == *old(self)
                    &&& r@ == seq![
                        Command::<V>::StoreViewer(viewer),
                        Command::<V>::SendGMsg(GMsg::SessionChanged(Session::LoggedIn(viewer))),
                    ]
                },
                Msg::CompletedLogin(Err(problems)) => {
                    &&& final(self).problems == problems
                    &&& final(self).form == old(self).form
                    &&& r@.len() == 0
                },
            },
    {
        let mut r: Vec<Command<V>> = Vec::new();
        match msg {
            Msg::SubmittedForm => {
                match check(&self.form) {
                    Ok(valid) => {
                        self.problems = Vec::new();
                        r.push(Command::Login(valid));
                    },
                    Err(problems) => {
                        self.problems = problems;
                    },
                }
            },
            Msg::EnteredEmail(email) => {
                self.form.email = email;
            },
            Msg::EnteredPassword(password) => {
                self.form.password = password;
            },
            Msg::CompletedLogin(Ok(viewer)) => {
                r.push(Command::StoreViewer(viewer.clone()));
                let session = Session::new(Some(viewer));
                r.push(Command::SendGMsg(GMsg::SessionChanged(session)));
            },
            Msg::CompletedLogin(Err(problems)) => {
                self.problems = problems;
            },
        }
        r
    }
}

} // verus!
