//! The profile page: an author and their articles; its state, and how each
//! message changes it and what it asks to be done.

use vstd::prelude::*;
use crate::article::Article;
use crate::author::Author;
use crate::global_msg::GMsg;
use crate::page::status::Shown;
use crate::page_number::PageNumber;
use crate::paginated_list::PaginatedList;
use crate::route::Route;
use crate::session::Session;
use crate::text::copy_strings;
use crate::username::Username;

verus! {

/// The list of articles shown on a profile.
#[derive(Clone, Copy)]
pub enum FeedTab {
    MyArticles,
    FavoritedArticles,
}

impl Default for FeedTab {
    fn default() -> (r: Self)
        ensures
            r is MyArticles,
    {
        FeedTab::MyArticles
    }
}

/// Where a part of the profile page stands; until it is loaded it knows
/// whose profile it is.
pub enum Status<T> {
    Loading(Username),
    LoadingSlowly(Username),
    Loaded(T),
    Failed(Username),
}

impl<T> Default for Status<T> {
    /// Loading the profile of an empty name.
    fn default() -> (r: Self)
        ensures
            r matches Status::Loading(u) && u@.len() == 0,
    {
        Status::Loading(Username { value: String::new() })
    }
}

/// The name of the profile's author, whatever the author's status.
pub open spec fn status_username(status: Status<Author>) -> Username {
    match status {
        Status::Loading(u) => u,
        Status::LoadingSlowly(u) => u,
        Status::Loaded(a) => a.spec_username(),
        Status::Failed(u) => u,
    }
}

impl Status<Author> {
    /// The name of the profile's author.
    pub fn username(&self) -> (r: &Username)
        ensures
            *r == status_username(*self),
    {
        match self {
            Status::Loading(u) => u,
            Status::LoadingSlowly(u) => u,
            Status::Loaded(a) => a.username(),
            Status::Failed(u) => u,
        }
    }
}

/// The state of the profile page.
pub struct Model {
    pub session: Session,
    pub errors: Vec<String>,
    pub feed_tab: FeedTab,
    pub feed_page: PageNumber,
    pub author: Status<Author>,
    pub feed: Status<PaginatedList<Article>>,
}

/// What the profile page asks to be done.
pub enum Command<FM> {
    /// Tell the page when loading takes long.
    NotifyOnSlowLoad,
    LoadAuthor(Username),
    LoadFeed(Username, FeedTab, PageNumber),
    Follow(Username),
    Unfollow(Username),
    ScrollToTop,
    GoTo(Route),
    LogErrors(Vec<String>),
    LogError(String),
    /// Hand a message to the loaded feed.
    UpdateFeed(FM),
}

/// The commands of a step, and whether the page need not be drawn again.
pub struct Effects<FM> {
    pub commands: Vec<Command<FM>>,
    pub skip: bool,
}

/// A message to the profile page; `FM` is a message to its feed.
pub enum Msg<FM> {
    DismissErrorsClicked,
    FollowClicked,
    UnfollowClicked,
    TabClicked(FeedTab),
    FeedPageClicked(PageNumber),
    FollowChangeCompleted(Result<Author, Vec<String>>),
    AuthorLoadCompleted(Result<Author, (Username, Vec<String>)>),
    FeedLoadCompleted(Result<PaginatedList<Article>, (Username, Vec<String>)>),
    FeedMsg(FM),
    SlowLoadThresholdPassed,
    Unreachable,
}

/// The profile page of `username` as it opens, and the loads it asks for.
pub fn init<FM>(session: Session, username: Username) -> (r: (Model, Vec<Command<FM>>))
    ensures
        r.0.session == session,
        r.0.errors@.len() == 0,
        r.0.feed_tab is MyArticles,
        r.0.feed_page.spec_value() == 1,
        r.0.author == Status::<Author>::Loading(username),
        r.0.feed == Status::<PaginatedList<Article>>::Loading(username),
        r.1@.len() == 3,
        r.1@[0] is NotifyOnSlowLoad,
        r.1@[1] == Command::<FM>::LoadAuthor(username),
        r.1@[2] matches Command::LoadFeed(u, t, p) && u == username && t is MyArticles
            && p.spec_value() == 1,
{
    let mut commands: Vec<Command<FM>> = Vec::new();
    commands.push(Command::NotifyOnSlowLoad);
    commands.push(Command::LoadAuthor(username.clone()));
    commands.push(Command::LoadFeed(username.clone(), FeedTab::MyArticles, PageNumber::default()));
    (
        Model {
            session,
            errors: Vec::new(),
            feed_tab: FeedTab::MyArticles,
            feed_page: PageNumber::default(),
            author: Status::Loading(username.clone()),
            feed: Status::Loading(username),
        },
        commands,
    )
}

/// The title of a profile that is not yet loaded: `My Profile` where it is
/// the viewer's own, else `Profile`.
pub open spec fn title_for_me(session: Session, username: Username) -> Seq<char> {
    if session.spec_viewer() matches Some(v) && v.spec_credentials().username@ == username@ {
        "My Profile"@
    } else {
        "Profile"@
    }
}

/// Before the profile has loaded, the title is `My Profile` exactly when a
/// viewer is signed in under the profile's user name, and `Profile` for any
/// other name or for a guest; the two titles differ.
pub proof fn lemma_title_for_me(session: Session, username: Username)
    ensures
        title_for_me(session, username) == "My Profile"@ <==> (session.spec_viewer() is Some
            && session.spec_viewer().unwrap().spec_credentials().username@ == username@),
        title_for_me(session, username) == "Profile"@ <==> !(session.spec_viewer() is Some
            && session.spec_viewer().unwrap().spec_credentials().username@ == username@),
{
    reveal_strlit("My Profile");
    reveal_strlit("Profile");
    assert("My Profile"@.len() != "Profile"@.len());
}

/// What the profile page shows for its author's status.
pub enum ProfileContent<'a> {
    Nothing,
    LoadingIcon,
    LoadingError,
    Profile(&'a Author, &'a Vec<String>),
}

/// The follow button of a profile: none, or one that follows or unfollows
/// the author.
pub enum FollowButton {
    Hidden,
    Follow(Username),
    Unfollow(Username),
}

impl Model {
    /// The session that the page hands on when it is left.
    pub fn into_session(self) -> (r: Session)
        ensures
            r == self.session,
    {
        self.session
    }

    /// The session of the page.
    pub fn session(&self) -> (r: &Session)
        ensures
            *r == self.session,
    {
        &self.session
    }

    /// A message to all pages: a new session is kept and the page goes home.
    pub fn sink<FM>(&mut self, g_msg: GMsg) -> (r: Vec<Command<FM>>)
        ensures
            match g_msg {
                GMsg::SessionChanged(session) => {
                    &&& final(self).session == session
                    &&& final(self).errors == old(self).errors
                    &&& final(self).feed_tab == old(self).feed_tab
                    &&& final(self).feed_page == old(self).feed_page
                    &&& final(self).author == old(self).author
                    &&& final(self).feed == old(self).feed
                    &&& r@ == seq![Command::<FM>::GoTo(Route::Home)]
                },
                _ => *final(self) == *old(self) && r@.len() == 0,
            },
    {
        match g_msg {
            GMsg::SessionChanged(session) => {
                self.session = session;
                let mut r: Vec<Command<FM>> = Vec::new();
                r.push(Command::GoTo(Route::Home));
                r
            },
            _ => Vec::new(),
        }
    }

    /// The title of the page: `My Profile` for the viewer's own profile,
    /// `Profile - <name>` for another loaded profile, and, until the profile
    /// is loaded, `My Profile` or `Profile` as the name is the viewer's.
    pub fn title(&self) -> (r: String)
        ensures
            r@ == match self.author {
                Status::Loaded(Author::IsViewer(..)) => "My Profile"@,
                Status::Loaded(a) => "Profile - "@ + a.spec_username()@,
                Status::Loading(u) => title_for_me(self.session, u),
                Status::LoadingSlowly(u) => title_for_me(self.session, u),
                Status::Failed(u) => title_for_me(self.session, u),
            },
            self.author matches Status::Loading(u) ==> (r@ == "My Profile"@ <==> (self.session.spec_viewer() is Some
                && self.session.spec_viewer().unwrap().spec_credentials().username@ == u@)),
            self.author matches Status::LoadingSlowly(u) ==> (r@ == "My Profile"@ <==> (self.session.spec_viewer() is Some
                && self.session.spec_viewer().unwrap().spec_credentials().username@ == u@)),
            self.author matches Status::Failed(u) ==> (r@ == "My Profile"@ <==> (self.session.spec_viewer() is Some
                && self.session.spec_viewer().unwrap().spec_credentials().username@ == u@)),
            !(self.author is Loaded) ==> (r@ == "My Profile"@ || r@ == "Profile"@),
    {
        proof {
            reveal_strlit("My Profile");
            reveal_strlit("Profile");
            assert("My Profile"@.len() != "Profile"@.len());
        }
        match &self.author {
            Status::Loaded(Author::IsViewer(..)) => String::from_str("My Profile"),
            Status::Loaded(a) => {
                let mut r = String::from_str("Profile - ");
                r.append(a.username().as_str());
                r
            },
            Status::Loading(u) | Status::LoadingSlowly(u) | Status::Failed(u) => {
                if let Some(v) = self.session.viewer() {
                    if u.same_as(v.username()) {
                        return String::from_str("My Profile");
                    }
                }
                String::from_str("Profile")
            },
        }
    }

    /// The follow button for the loaded author: none for a guest or for the
    /// viewer's own profile, else one that unfollows a followed author or
    /// follows another.
    pub fn follow_button(&self, author: &Author) -> (r: FollowButton)
        ensures
            r == if self.session.spec_viewer() is None {
                FollowButton::Hidden
            } else {
                match *author {
                    Author::IsViewer(..) => FollowButton::Hidden,
                    Author::Following(_) => FollowButton::Unfollow(author.spec_username()),
                    Author::NotFollowing(_) => FollowButton::Follow(author.spec_username()),
                }
            },
    {
        match self.session.viewer() {
            None => FollowButton::Hidden,
            Some(_) => match author {
                Author::IsViewer(..) => FollowButton::Hidden,
                Author::Following(_) => FollowButton::Unfollow(author.username().clone()),
                Author::NotFollowing(_) => FollowButton::Follow(author.username().clone()),
            },
        }
    }

    /// What the profile shows: nothing while the author loads, the loading
    /// sign once loading takes long, the loading error after a failure, else
    /// the author with the errors to show.
    pub fn content(&self) -> (r: ProfileContent<'_>)
        ensures
            match self.author {
                Status::Loading(_) => r is Nothing,
                Status::LoadingSlowly(_) => r is LoadingIcon,
                Status::Failed(_) => r is LoadingError,
                Status::Loaded(a) => r == ProfileContent::Profile(&a, &self.errors),
            },
    {
        match &self.author {
            Status::Loading(_) => ProfileContent::Nothing,
            Status::LoadingSlowly(_) => ProfileContent::LoadingIcon,
            Status::Failed(_) => ProfileContent::LoadingError,
            Status::Loaded(a) => ProfileContent::Profile(a, &self.errors),
        }
    }

    /// What the profile's feed shows: nothing while it loads, the loading
    /// sign once loading takes long, the loading error after a failure, else
    /// the feed.
    pub fn feed_shown(&self) -> (r: Shown<'_, PaginatedList<Article>>)
        ensures
            match self.feed {
                Status::Loading(_) => r is Nothing,
                Status::LoadingSlowly(_) => r is LoadingIcon,
                Status::Failed(_) => r is LoadingError,
                Status::Loaded(f) => r == Shown::Loaded(&f),
            },
    {
        match &self.feed {
            Status::Loading(_) => Shown::Nothing,
            Status::LoadingSlowly(_) => Shown::LoadingIcon,
            Status::Failed(_) => Shown::LoadingError,
            Status::Loaded(f) => Shown::Loaded(f),
        }
    }

    /// Handles a message: changes the state as the message says and returns
    /// what is to be done.
    #[verifier::rlimit(30)]
    pub fn update<FM>(&mut self, msg: Msg<FM>) -> (e: Effects<FM>)
        ensures
            final(self).session == old(self).session,
            match msg {
                Msg::DismissErrorsClicked => {
                    &&& final(self).errors@.len() == 0
                    &&& final(self).feed_tab == old(self).feed_tab
                    &&& final(self).feed_page == old(self).feed_page
                    &&& final(self).author == old(self).author
                    &&& final(self).feed == old(self).feed
                    &&& e.commands@.len() == 0
                    &&& !e.skip
                },
                Msg::FollowClicked => {
                    &&& *final(self) == *old(self)
                    &&& e.commands@ == seq![Command::<FM>::Follow(status_username(old(self).author))]
                    &&& e.skip
                },
                Msg::UnfollowClicked => {
                    &&& *final(self) == *old(self)
                    &&& e.commands@ == seq![Command::<FM>::Unfollow(status_username(old(self).author))]
                    &&& e.skip
                },
                Msg::TabClicked(feed_tab) => {
                    &&& final(self).feed_tab == feed_tab
                    &&& final(self).feed_page.spec_value() == 1
                    &&& final(self).errors == old(self).errors
                    &&& final(self).author == old(self).author
                    &&& final(self).feed == old(self).feed
                    &&& e.commands@.len() == 1
                    &&& e.commands@[0] matches Command::LoadFeed(u, t, p) && u == status_username(
                        old(self).author,
                    ) && t == feed_tab && p.spec_value() == 1
                    &&& !e.skip
                },
                Msg::FeedPageClicked(page) => {
                    &&& final(self).feed_page == page
                    &&& final(self).feed_tab == old(self).feed_tab
                    &&& final(self).errors == old(self).errors
                    &&& final(self).author == old(self).author
                    &&& final(self).feed == old(self).feed
                    &&& e.commands@ == seq![
                        Command::<FM>::LoadFeed(status_username(old(self).author), old(self).feed_tab, page),
                        Command::<FM>::ScrollToTop,
                    ]
                    &&& !e.skip
                },
                Msg::FollowChangeCompleted(Ok(author)) | Msg::AuthorLoadCompleted(Ok(author)) => {
                    &&& final(self).author == Status::Loaded(author)
                    &&& final(self).errors == old(self).errors
                    &&& final(self).feed_tab == old(self).feed_tab
                    &&& final(self).feed_page == old(self).feed_page
                    &&& final(self).feed == old(self).feed
                    &&& e.commands@.len() == 0
                    &&& !e.skip
                },
                Msg::FollowChangeCompleted(Err(errors)) => {
                    &&& final(self).errors == errors
                    &&& final(self).author == old(self).author
                    &&& final(self).feed_tab == old(self).feed_tab
                    &&& final(self).feed_page == old(self).feed_page
                    &&& final(self).feed == old(self).feed
                    &&& e.commands@.len() == 1
                    &&& e.commands@[0] matches Command::LogErrors(l) && l@ == errors@
                    &&& !e.skip
                },
                Msg::AuthorLoadCompleted(Err((username, errors))) => {
                    &&& final(self).author == Status::<Author>::Failed(username)
                    &&& final(self).errors == errors
                    &&& final(self).feed_tab == old(self).feed_tab
                    &&& final(self).feed_page == old(self).feed_page
                    &&& final(self).feed == old(self).feed
                    &&& e.commands@.len() == 1
                    &&& e.commands@[0] matches Command::LogErrors(l) && l@ == errors@
                    &&& !e.skip
                },
                Msg::FeedLoadCompleted(Ok(list)) => {
                    &&& final(self).feed == Status::Loaded(list)
                    &&& final(self).errors == old(self).errors
                    &&& final(self).feed_tab == old(self).feed_tab
                    &&& final(self).feed_page == old(self).feed_page
                    &&& final(self).author == old(self).author
                    &&& e.commands@.len() == 0
                    &&& !e.skip
                },
                Msg::FeedLoadCompleted(Err((username, errors))) => {
                    &&& final(self).feed == Status::<PaginatedList<Article>>::Failed(username)
                    &&& final(self).errors == errors
                    &&& final(self).feed_tab == old(self).feed_tab
                    &&& final(self).feed_page == old(self).feed_page
                    &&& final(self).author == old(self).author
                    &&& e.commands@.len() == 1
                    &&& e.commands@[0] matches Command::LogErrors(l) && l@ == errors@
                    &&& !e.skip
                },
                Msg::FeedMsg(feed_msg) => {
                    &&& *final(self) == *old(self)
                    &&& if old(self).feed is Loaded {
                        e.commands@ == seq![Command::UpdateFeed(feed_msg)]
                    } else {
                        e.commands@.len() == 1 && (e.commands@[0] matches Command::LogError(m) && m@
                            == "FeedMsg can be handled only if Status is Loaded"@)
                    }
                    &&& !e.skip
                },
                Msg::SlowLoadThresholdPassed => {
                    &&& final(self).feed == match old(self).feed {
                        Status::Loading(u) => Status::LoadingSlowly(u),
                        other => other,
                    }
                    &&& final(self).errors == old(self).errors
                    &&& final(self).feed_tab == old(self).feed_tab
                    &&& final(self).feed_page == old(self).feed_page
                    &&& final(self).author == old(self).author
                    &&& e.commands@.len() == 0
                    &&& !e.skip
                },
                Msg::Unreachable => {
                    &&& *final(self) == *old(self)
                    &&& e.commands@.len() == 1
                    &&& e.commands@[0] matches Command::LogError(m) && m@ == "Unreachable!"@
                    &&& !e.skip
                },
            },
    {
        let mut commands: Vec<Command<FM>> = Vec::new();
        let mut skip = false;
        match msg {
            Msg::DismissErrorsClicked => {
                self.errors = Vec::new();
            },
            Msg::FollowClicked => {
                commands.push(Command::Follow(self.author.username().clone()));
                skip = true;
            },
            Msg::UnfollowClicked => {
                commands.push(Command::Unfollow(self.author.username().clone()));
                skip = true;
            },
            Msg::TabClicked(feed_tab) => {
                self.feed_tab = feed_tab;
                self.feed_page = PageNumber::default();
                commands.push(
                    Command::LoadFeed(self.author.username().clone(), feed_tab, self.feed_page),
                );
            },
            Msg::FeedPageClicked(page) => {
                self.feed_page = page;
                commands.push(
                    Command::LoadFeed(self.author.username().clone(), self.feed_tab, self.feed_page),
                );
                commands.push(Command::ScrollToTop);
            },
            Msg::FollowChangeCompleted(Ok(author)) | Msg::AuthorLoadCompleted(Ok(author)) => {
                self.author = Status::Loaded(author);
            },
            Msg::FollowChangeCompleted(Err(errors)) => {
                commands.push(Command::LogErrors(copy_strings(&errors)));
                self.errors = errors;
            },
            Msg::AuthorLoadCompleted(Err((username, errors))) => {
                self.author = Status::Failed(username);
                commands.push(Command::LogErrors(copy_strings(&errors)));
                self.errors = errors;
            },
            Msg::FeedLoadCompleted(Ok(list)) => {
                self.feed = Status::Loaded(list);
            },
            Msg::FeedLoadCompleted(Err((username, errors))) => {
                self.feed = Status::Failed(username);
                commands.push(Command::LogErrors(copy_strings(&errors)));
                self.errors = errors;
            },
            Msg::FeedMsg(feed_msg) => {
                if let Status::Loaded(_) = self.feed {
                    commands.push(Command::UpdateFeed(feed_msg));
                } else {
                    commands.push(Command::LogError(String::from_str("FeedMsg can be handled only if Status is Loaded")));
                }
            },
            Msg::SlowLoadThresholdPassed => {
                let mut feed: Status<PaginatedList<Article>> = Status::Failed(
                    Username { value: String::new() },
                );
                core::mem::swap(&mut feed, &mut self.feed);
                match feed {
                    Status::Loading(u) => {
                        self.feed = Status::LoadingSlowly(u);
                    },
                    other => {
                        self.feed = other;
                    },
                }
            },
            Msg::Unreachable => {
                commands.push(Command::LogError(String::from_str("Unreachable!")));
            },
        }
        Effects { commands, skip }
    }
}

} // verus!
