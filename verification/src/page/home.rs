//! The home page: the feeds of articles and the popular tags; its state, and
//! how each message changes it and what it asks to be done.

use vstd::prelude::*;
use crate::article::{Article, Tag};
use crate::global_msg::GMsg;
use crate::page::status::{Shown, Status};
use crate::page_number::PageNumber;
use crate::paginated_list::PaginatedList;
use crate::session::Session;
use crate::viewer::Viewer;

verus! {

/// The feed shown on the home page.
pub enum FeedTab {
    YourFeed(Viewer),
    GlobalFeed,
    TagFeed(Tag),
}

impl Default for FeedTab {
    fn default() -> (r: Self)
        ensures
            r is GlobalFeed,
    {
        FeedTab::GlobalFeed
    }
}

impl Clone for FeedTab {
    fn clone(&self) -> (r: Self)
        ensures
            r == *self,
    {
        match self {
            FeedTab::YourFeed(v) => FeedTab::YourFeed(v.clone()),
            FeedTab::GlobalFeed => FeedTab::GlobalFeed,
            FeedTab::TagFeed(t) => FeedTab::TagFeed(t.clone()),
        }
    }
}

/// The state of the home page.
pub struct Model {
    pub session: Session,
    pub feed_tab: FeedTab,
    pub feed_page: PageNumber,
    pub tags: Status<Vec<Tag>>,
    pub feed: Status<PaginatedList<Article>>,
}

/// What the home page asks to be done.
pub enum Command<FM> {
    /// Tell the page when loading takes long.
    NotifyOnSlowLoad,
    LoadTags,
    LoadFeed(FeedTab, PageNumber),
    ScrollToTop,
    LogErrors(Vec<String>),
    LogError(String),
    /// Hand a message to the loaded feed.
    UpdateFeed(FM),
}

/// A message to the home page; `FM` is a message to its feed.
pub enum Msg<FM> {
    TagClicked(Tag),
    TabClicked(FeedTab),
    FeedPageClicked(PageNumber),
    FeedLoadCompleted(Result<PaginatedList<Article>, Vec<String>>),
    TagsLoadCompleted(Result<Vec<Tag>, Vec<String>>),
    FeedMsg(FM),
    SlowLoadThresholdPassed,
    Unreachable,
}

/// The feed that the home page opens with: the viewer's own where someone
/// is signed in, else the global one.
pub open spec fn first_feed(session: Session) -> FeedTab {
    match session.spec_viewer() {
        Some(v) => FeedTab::YourFeed(v),
        None => FeedTab::GlobalFeed,
    }
}

/// The home page as it opens, and the loads it asks for.
pub fn init<FM>(session: Session) -> (r: (Model, Vec<Command<FM>>))
    ensures
        r.0.session == session,
        r.0.feed_tab == first_feed(session),
        r.0.feed_page.spec_value() == 1,
        r.0.tags is Loading,
        r.0.feed is Loading,
        r.1@.len() == 3,
        r.1@[0] is NotifyOnSlowLoad,
        r.1@[1] is LoadTags,
        r.1@[2] matches Command::LoadFeed(tab, page) && tab == first_feed(session) && page.spec_value() == 1,
{
    let feed_tab = match session.viewer() {
        Some(viewer) => FeedTab::YourFeed(viewer.clone()),
        None => FeedTab::GlobalFeed,
    };
    let mut commands: Vec<Command<FM>> = Vec::new();
    commands.push(Command::NotifyOnSlowLoad);
    commands.push(Command::LoadTags);
    commands.push(Command::LoadFeed(feed_tab.clone(), PageNumber::default()));
    (
        Model {
            session,
            feed_tab,
            feed_page: PageNumber::default(),
            tags: Status::Loading,
            feed: Status::Loading,
        },
        commands,
    )
}

/// A tab above the feed: its title, the feed it opens, and whether it is
/// the one shown.
pub struct Tab {
    pub title: String,
    pub feed_tab: FeedTab,
    pub active: bool,
}

/// Whether a tab has the title `title`, opens `feed_tab`, and is active or not.
pub open spec fn is_tab(t: Tab, title: Seq<char>, feed_tab: FeedTab, active: bool) -> bool {
    t.title@ == title && t.feed_tab == feed_tab && t.active == active
}

fn tab(title: &str, feed_tab: FeedTab, active: bool) -> (t: Tab)
    ensures
        is_tab(t, title@, feed_tab, active),
{
    Tab { title: String::from_str(title), feed_tab, active }
}

impl Model {
    /// The session that the page hands on when it is left.
    pub fn into_session(self) -> (r: Session)
        ensures
            r == self.session,
    {
        self.session
    }

    /// The session of the page.
    pub fn session(&self) -> (r: &Session)
        ensures
            *r == self.session,
    {
        &self.session
    }

    /// A message to all pages: the page keeps a new session.
    pub fn sink(&mut self, g_msg: GMsg)
        ensures
            match g_msg {
                GMsg::SessionChanged(session) => {
                    &&& final(self).session == session
                    &&& final(self).feed_tab == old(self).feed_tab
                    &&& final(self).feed_page == old(self).feed_page
                    &&& final(self).tags == old(self).tags
                    &&& final(self).feed == old(self).feed
                },
                _ => *final(self) == *old(self),
            },
    {
        match g_msg {
            GMsg::SessionChanged(session) => {
                self.session = session;
            },
            _ => {},
        }
    }

    /// The tabs above the feed: the viewer's own feed where someone is
    /// signed in or it is shown, the global feed, and the tag's feed where it
    /// is shown; the shown one active.
    pub fn tabs(&self) -> (r: Vec<Tab>)
        ensures
            match self.feed_tab {
                FeedTab::YourFeed(v) => {
                    &&& r@.len() == 2
                    &&& is_tab(r@[0], "Your Feed"@, FeedTab::YourFeed(v), true)
                    &&& is_tab(r@[1], "Global Feed"@, FeedTab::GlobalFeed, false)
                },
                FeedTab::GlobalFeed => match self.session.spec_viewer() {
                    Some(v) => {
                        &&& r@.len() == 2
                        &&& is_tab(r@[0], "Your Feed"@, FeedTab::YourFeed(v), false)
                        &&& is_tab(r@[1], "Global Feed"@, FeedTab::GlobalFeed, true)
                    },
                    None => {
                        &&& r@.len() == 1
                        &&& is_tab(r@[0], "Global Feed"@, FeedTab::GlobalFeed, true)
                    },
                },
                FeedTab::TagFeed(t) => match self.session.spec_viewer() {
                    Some(v) => {
                        &&& r@.len() == 3
                        &&& is_tab(r@[0], "Your Feed"@, FeedTab::YourFeed(v), false)
                        &&& is_tab(r@[1], "Global Feed"@, FeedTab::GlobalFeed, false)
                        &&& is_tab(r@[2], "#"@ + t@, FeedTab::TagFeed(t), true)
                    },
                    None => {
                        &&& r@.len() == 2
                        &&& is_tab(r@[0], "Global Feed"@, FeedTab::GlobalFeed, false)
                        &&& is_tab(r@[1], "#"@ + t@, FeedTab::TagFeed(t), true)
                    },
                },
            },
    {
        let mut r: Vec<Tab> = Vec::new();
        match &self.feed_tab {
            FeedTab::YourFeed(v) => {
                r.push(tab("Your Feed", FeedTab::YourFeed(v.clone()), true));
                r.push(tab("Global Feed", FeedTab::GlobalFeed, false));
            },
            FeedTab::GlobalFeed => {
                match self.session.viewer() {
                    Some(v) => {
                        r.push(tab("Your Feed", FeedTab::YourFeed(v.clone()), false));
                        r.push(tab("Global Feed", FeedTab::GlobalFeed, true));
                    },
                    None => {
                        r.push(tab("Global Feed", FeedTab::GlobalFeed, true));
                    },
                }
            },
            FeedTab::TagFeed(t) => {
                let mut title = String::from_str("#");
                title.append(t.value.as_str());
                let tag_tab = Tab { title, feed_tab: FeedTab::TagFeed(t.clone()), active: true };
                match self.session.viewer() {
                    Some(v) => {
                        r.push(tab("Your Feed", FeedTab::YourFeed(v.clone()), false));
                        r.push(tab("Global Feed", FeedTab::GlobalFeed, false));
                        r.push(tag_tab);
                    },
                    None => {
                        r.push(tab("Global Feed", FeedTab::GlobalFeed, false));
                        r.push(tag_tab);
                    },
                }
            },
        }
        r
    }

    /// What the feed shows for its status.
    pub fn feed_shown(&self) -> (r: Shown<'_, PaginatedList<Article>>)
        ensures
            match self.feed {
                Status::Loading => r is Nothing,
                Status::LoadingSlowly => r is LoadingIcon,
                Status::Failed => r is LoadingError,
                Status::Loaded(f) => r == Shown::Loaded(&f),
            },
    {
        self.feed.shown()
    }

    /// What the list of popular tags shows for its status.
    pub fn tags_shown(&self) -> (r: Shown<'_, Vec<Tag>>)
        ensures
            match self.tags {
                Status::Loading => r is Nothing,
                Status::LoadingSlowly => r is LoadingIcon,
                Status::Failed => r is LoadingError,
                Status::Loaded(t) => r == Shown::Loaded(&t),
            },
    {
        self.tags.shown()
    }

    /// Handles a message: changes the state as the message says and returns
    /// what is to be done.
    pub fn update<FM>(&mut self, msg: Msg<FM>) -> (r: Vec<Command<FM>>)
        ensures
            final(self).session == old(self).session,
            match msg {
                Msg::TagClicked(tag) => {
                    &&& final(self).feed_tab == FeedTab::TagFeed(tag)
                    &&& final(self).feed_page.spec_value() == 1
                    &&& final(self).tags == old(self).tags
                    &&& final(self).feed == old(self).feed
                    &&& r@.len() == 1
                    &&& r@[0] matches Command::LoadFeed(t, p) && t == FeedTab::TagFeed(tag)
                        && p.spec_value() == 1
                },
                Msg::TabClicked(feed_tab) => {
                    &&& final(self).feed_tab == feed_tab
                    &&& final(self).feed_page.spec_value() == 1
                    &&& final(self).tags == old(self).tags
                    &&& final(self).feed == old(self).feed
                    &&& r@.len() == 1
                    &&& r@[0] matches Command::LoadFeed(t, p) && t == feed_tab && p.spec_value()
                        == 1
                },
                Msg::FeedPageClicked(page) => {
                    &&& final(self).feed_tab == old(self).feed_tab
                    &&& final(self).feed_page == page
                    &&& final(self).tags == old(self).tags
                    &&& final(self).feed == old(self).feed
                    &&& r@ == seq![Command::<FM>::LoadFeed(old(self).feed_tab, page), Command::<FM>::ScrollToTop]
                },
                Msg::FeedLoadCompleted(Ok(list)) => {
                    &&& final(self).feed == Status::Loaded(list)
                    &&& final(self).feed_tab == old(self).feed_tab
                    &&& final(self).feed_page == old(self).feed_page
                    &&& final(self).tags == old(self).tags
                    &&& r@.len() == 0
                },
                Msg::FeedLoadCompleted(Err(errors)) => {
                    &&& final(self).feed is Failed
                    &&& final(self).feed_tab == old(self).feed_tab
                    &&& final(self).feed_page == old(self).feed_page
                    &&& final(self).tags == old(self).tags
                    &&& r@ == seq![Command::<FM>::LogErrors(errors)]
                },
                Msg::TagsLoadCompleted(Ok(tags)) => {
                    &&& final(self).tags == Status::Loaded(tags)
                    &&& final(self).feed_tab == old(self).feed_tab
                    &&& final(self).feed_page == old(self).feed_page
                    &&& final(self).feed == old(self).feed
                    &&& r@.len() == 0
                },
                Msg::TagsLoadCompleted(Err(errors)) => {
                    &&& final(self).tags is Failed
                    &&& final(self).feed_tab == old(self).feed_tab
                    &&& final(self).feed_page == old(self).feed_page
                    &&& final(self).feed == old(self).feed
                    &&& r@ == seq![Command::<FM>::LogErrors(errors)]
                },
                Msg::FeedMsg(feed_msg) => {
                    &&& *final(self) == *old(self)
                    &&& if old(self).feed is Loaded {
                        r@ == seq![Command::UpdateFeed(feed_msg)]
                    } else {
                        r@.len() == 1 && (r@[0] matches Command::LogError(m) && m@
                            == "FeedMsg can be handled only if Status is Loaded"@)
                    }
                },
                Msg::SlowLoadThresholdPassed => {
                    &&& final(self).feed == if old(self).feed is Loading {
                        Status::LoadingSlowly
                    } else {
                        old(self).feed
                    }
                    &&& final(self).tags == if old(self).tags is Loading {
                        Status::LoadingSlowly
                    } else {
                        old(self).tags
                    }
                    &&& final(self).feed_tab == old(self).feed_tab
                    &&& final(self).feed_page == old(self).feed_page
                    &&& r@.len() == 0
                },
                Msg::Unreachable => {
                    &&& *final(self) == *old(self)
                    &&& r@.len() == 1
                    &&& r@[0] matches Command::LogError(m) && m@ == "Unreachable!"@
                },
            },
    {
        let mut r: Vec<Command<FM>> = Vec::new();
        match msg {
            Msg::TagClicked(tag) => {
                self.feed_tab = FeedTab::TagFeed(tag);
                self.feed_page = PageNumber::default();
                r.push(Command::LoadFeed(self.feed_tab.clone(), self.feed_page));
            },
            Msg::TabClicked(feed_tab) => {
                self.feed_tab = feed_tab;
                self.feed_page = PageNumber::default();
                r.push(Command::LoadFeed(self.feed_tab.clone(), self.feed_page));
            },
            Msg::FeedPageClicked(page) => {
                self.feed_page = page;
                r.push(Command::LoadFeed(self.feed_tab.clone(), self.feed_page));
                r.push(Command::ScrollToTop);
            },
            Msg::FeedLoadCompleted(Ok(list)) => {
                self.feed = Status::Loaded(list);
            },
            Msg::FeedLoadCompleted(Err(errors)) => {
                self.feed = Status::Failed;
                r.push(Command::LogErrors(errors));
            },
            Msg::TagsLoadCompleted(Ok(tags)) => {
                self.tags = Status::Loaded(tags);
            },
            Msg::TagsLoadCompleted(Err(errors)) => {
                self.tags = Status::Failed;
                r.push(Command::LogErrors(errors));
            },
            Msg::FeedMsg(feed_msg) => {
                if let Status::Loaded(_) = self.feed {
                    r.push(Command::UpdateFeed(feed_msg));
                } else {
                    r.push(Command::LogError(String::from_str("FeedMsg can be handled only if Status is Loaded")));
                }
            },
            Msg::SlowLoadThresholdPassed => {
                if let Status::Loading = self.feed {
                    self.feed = Status::LoadingSlowly;
                }
                if let Status::Loading = self.tags {
                    self.tags = Status::LoadingSlowly;
                }
            },
            Msg::Unreachable => {
                r.push(Command::LogError(String::from_str("Unreachable!")));
            },
        }
        r
    }
}

} // verus!
