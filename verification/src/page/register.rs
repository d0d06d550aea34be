//! The page to sign up: its state, and how each message changes it and
//! what it asks to be done.
//!
//! The page does not know the rules of its form: how a field is written
//! into the form and how a form is checked before it is sent are handed to
//! `update` as functions.

use vstd::prelude::*;
use crate::global_msg::GMsg;
use crate::problem::Problem;
use crate::route::Route;
use crate::session::Session;
use crate::viewer::Viewer;

verus! {

/// The state of the page to sign up, with its form `F`.
pub struct Model<F> {
    pub session: Session,
    pub problems: Vec<Problem>,
    pub form: F,
}

/// A message to the page; `D` is a changed field of the form.
pub enum Msg<D> {
    FormSubmitted,
    FieldChanged(D),
    RegisterCompleted(Result<Viewer, Vec<Problem>>),
}

/// What the page asks to be done; `V` is a checked form.
pub enum Command<V> {
    Register(V),
    StoreViewer(Viewer),
    SendGMsg(GMsg),
    GoTo(Route),
}

/// The page as it opens, with an empty form.
pub fn init<F>(session: Session, empty_form: F) -> (r: Model<F>)
    ensures
        r.session == session,
        r.problems@.len() == 0,
        r.form == empty_form,
{
    Model { session, problems: Vec::new(), form: empty_form }
}

impl<F> Model<F> {
    /// The session of the page.
    pub fn session(&self) -> (r: &Session)
        ensures
            *r == self.session,
    {
        &self.session
    }

    /// The session that the page hands on when it is left.
    pub fn into_session(self) -> (r: Session)
        ensures
            r == self.session,
    {
        self.session
    }

    /// A message to all pages: a new session is kept and the page goes home.
    pub fn sink<V>(&mut self, g_msg: GMsg) -> (r: Vec<Command<V>>)
        ensures
            match g_msg {
                GMsg::SessionChanged(session) => {
                    &&& final(self).session == session
                    &&& final(self).problems == old(self).problems
                    &&& final(self).form == old(self).form
                    &&& r@ == seq![Command::<V>::GoTo(Route::Home)]
                },
                _ => *final(self) == *old(self) && r@.len() == 0,
            },
    {
        match g_msg {
            GMsg::SessionChanged(session) => {
                self.session = session;
                let mut r: Vec<Command<V>> = Vec::new();
                r.push(Command::GoTo(Route::Home));
                r
            },
            _ => Vec::new(),
        }
    }

    /// Handles a message: changes the state as the message says and returns
    /// what is to be done. `upsert` writes a changed field into the form;
    /// `check` trims and checks the form before it is sent.
    pub fn update<D, V, U, C>(&mut self, msg: Msg<D>, upsert: U, check: C) -> (r: Vec<Command<V>>) where
        U: Fn(&F, D) -> F,
        C: Fn(&F) -> Result<V, Vec<Problem>>,

        requires
            forall|f: &F, d: D| #[trigger] upsert.requires((f, d)),
            forall|f: &F| #[trigger] check.requires((f,)),
        ensures
            final(self).session == old(self).session,
            match msg {
                Msg::FormSubmitted => final(self).form == old(self).form && exists|
                    checked: Result<V, Vec<Problem>>,
                |
                    #![trigger check.ensures((&old(self).form,), checked)]
                    check.ensures((&old(self).form,), checked) && match checked {
                        Ok(valid) => final(self).problems@.len() == 0 && r@ == seq![
                            Command::Register(valid),
                        ],
                        Err(problems) => final(self).problems == problems && r@.len() == 0,
                    },
                Msg::FieldChanged(field) => {
                    &&& upsert.ensures((&old(self).form, field), final(self).form)
                    &&& final(self).problems == old(self).problems
                    &&& r@.len() == 0
                },
                Msg::RegisterCompleted(Ok(viewer)) => {
                    &&& *final(self) == *old(self)
                    &&& r@ == seq![
                        Command::<V>::StoreViewer(viewer),
                        Command::<V>::SendGMsg(GMsg::SessionChanged(Session::LoggedIn(viewer))),
                    ]
                },
                Msg::RegisterCompleted(Err(problems)) => {
                    &&& final(self).problems == problems
                    &&& final(self).form == old(self).form
                    &&& r@.len() == 0
                },
            },
    {
        let mut r: Vec<Command<V>> = Vec::new();
        match msg {
            Msg::FormSubmitted => {
                match check(&self.form) {
                    Ok(valid) => {
                        self.problems = Vec::new();
                        r.push(Command::Register(valid));
                    },
                    Err(problems) => {
                        self.problems = problems;
                    },
                }
            },
            Msg::FieldChanged(field) => {
                self.form = upsert(&self.form, field);
            },
            Msg::RegisterCompleted(Ok(viewer)) => {
                r.push(Command::StoreViewer(viewer.clone()));
                r.push(Command::SendGMsg(GMsg::SessionChanged(Session::LoggedIn(viewer))));
            },
            Msg::RegisterCompleted(Err(problems)) => {
                self.problems = problems;
            },
        }
        r
    }
}

} // verus!
