//! The author of an article or a comment, as the viewer sees them.

use vstd::prelude::*;
use crate::avatar::Avatar;
use crate::credentials::Credentials;
use crate::profile::Profile;
use crate::session::Session;
use crate::username::Username;

verus! {

/// An author whom the viewer follows.
pub struct FollowedAuthor(pub Username, pub Profile);

/// An author whom the viewer does not follow.
pub struct UnfollowedAuthor(pub Username, pub Profile);

/// An author: the viewer themselves, or someone they follow or do not follow.
pub enum Author {
    IsViewer(Credentials, Profile),
    Following(FollowedAuthor),
    NotFollowing(UnfollowedAuthor),
}

impl Author {
    /// The author's name.
    pub open spec fn spec_username(&self) -> Username {
        match self {
            Author::IsViewer(c, _) => c.username,
            Author::Following(FollowedAuthor(u, _)) => *u,
            Author::NotFollowing(UnfollowedAuthor(u, _)) => *u,
        }
    }

    /// The author's profile.
    pub open spec fn spec_profile(&self) -> Profile {
        match self {
            Author::IsViewer(_, p) => *p,
            Author::Following(FollowedAuthor(_, p)) => *p,
            Author::NotFollowing(UnfollowedAuthor(_, p)) => *p,
        }
    }

    /// The author's name.
    pub fn username(&self) -> (r: &Username)
        ensures
            *r == self.spec_username(),
    {
        match self {
            Author::IsViewer(c, _) => &c.username,
            Author::Following(FollowedAuthor(u, _)) => u,
            Author::NotFollowing(UnfollowedAuthor(u, _)) => u,
        }
    }

    /// The author's profile.
    pub fn profile(&self) -> (r: &Profile)
        ensures
            *r == self.spec_profile(),
    {
        match self {
            Author::IsViewer(_, p) => p,
            Author::Following(FollowedAuthor(_, p)) => p,
            Author::NotFollowing(UnfollowedAuthor(_, p)) => p,
        }
    }
}

impl Clone for Author {
    fn clone(&self) -> (r: Self)
        ensures
            r == *self,
    {
        match self {
            Author::IsViewer(c, p) => Author::IsViewer(c.clone(), p.clone()),
            Author::Following(FollowedAuthor(u, p)) => Author::Following(
                FollowedAuthor(u.clone(), p.clone()),
            ),
            Author::NotFollowing(UnfollowedAuthor(u, p)) => Author::NotFollowing(
                UnfollowedAuthor(u.clone(), p.clone()),
            ),
        }
    }
}

/// An author as the server describes them.
pub struct AuthorData {
    pub username: String,
    pub bio: Option<String>,
    pub image: String,
    pub following: bool,
}

impl AuthorData {
    /// The profile that the server's description gives.
    pub open spec fn spec_profile(&self) -> Profile {
        Profile { bio: self.bio, avatar: Avatar { url: Some(self.image) } }
    }

    /// Classifies the author for the session: the viewer themselves where
    /// the names are alike, else followed or not as the server says.
    pub fn into_author(self, session: &Session) -> (r: Author)
        ensures
            match session.spec_viewer() {
                Some(v) => v.spec_credentials().username@ == self.username@
                    ==> r == Author::IsViewer(v.spec_credentials(), self.spec_profile()),
                None => true,
            },
            !(session.spec_viewer() matches Some(v) && v.spec_credentials().username@
                == self.username@) ==> r == if self.following {
                Author::Following(FollowedAuthor((Username { value: self.username }), self.spec_profile()))
            } else {
                Author::NotFollowing(
                    UnfollowedAuthor((Username { value: self.username }), self.spec_profile()),
                )
            },
    {
        let username = Username::new(self.username);
        let profile = Profile { bio: self.bio, avatar: Avatar::new(Some(self.image)) };
        if let Some(viewer) = session.viewer() {
            if username.same_as(viewer.username()) {
                return Author::IsViewer(viewer.credentials().clone(), profile);
            }
        }
        if self.following {
            Author::Following(FollowedAuthor(username, profile))
        } else {
            Author::NotFollowing(UnfollowedAuthor(username, profile))
        }
    }
}

} // verus!
