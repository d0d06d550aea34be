//! What the server tells of the signed-in user: the viewer after signing in
//! or up, and the fields of the settings form.

use vstd::prelude::*;
use crate::avatar::Avatar;
use crate::credentials::Credentials;
use crate::username::Username;
use crate::viewer::Viewer;

verus! {

/// The user as the server describes them after signing in or up.
pub struct UserData {
    pub username: String,
    pub image: Option<String>,
    pub token: String,
}

impl UserData {
    /// The viewer that the server's description gives: the picture, the
    /// name and the token.
    pub fn into_viewer(self) -> (r: Viewer)
        ensures
            r.spec_avatar() == (Avatar { url: self.image }),
            r.spec_credentials() == (Credentials {
                username: Username { value: self.username },
                auth_token: self.token,
            }),
    {
        Viewer::new(
            Avatar::new(self.image),
            Credentials { username: Username::new(self.username), auth_token: self.token },
        )
    }
}

/// A field of the settings form.
pub enum SettingsField {
    Avatar(String),
    Username(String),
    Bio(String),
    Email(String),
    Password(String),
}

/// The user's settings as the server describes them.
pub struct SettingsData {
    pub email: String,
    pub username: String,
    pub bio: Option<String>,
    pub image: Option<String>,
}

/// The text of an optional field, empty where there is none.
pub open spec fn or_empty(s: Option<String>) -> Seq<char> {
    match s {
        Some(t) => t@,
        None => Seq::empty(),
    }
}

fn unwrap_or_default(s: Option<String>) -> (r: String)
    ensures
        r@ == or_empty(s),
{
    match s {
        Some(t) => t,
        None => String::new(),
    }
}

impl SettingsData {
    /// The fields of the settings form, filled from the server's
    /// description: the picture, the name, the biography, the e-mail
    /// address, and an empty password, in this order.
    pub fn into_form_fields(self) -> (r: Vec<SettingsField>)
        ensures
            r@.len() == 5,
            r@[0] matches SettingsField::Avatar(a) && a@ == or_empty(self.image),
            r@[1] == SettingsField::Username(self.username),
            r@[2] matches SettingsField::Bio(b) && b@ == or_empty(self.bio),
            r@[3] == SettingsField::Email(self.email),
            r@[4] matches SettingsField::Password(p) && p@.len() == 0,
    {
        let mut r: Vec<SettingsField> = Vec::new();
        r.push(SettingsField::Avatar(unwrap_or_default(self.image)));
        r.push(SettingsField::Username(self.username));
        r.push(SettingsField::Bio(unwrap_or_default(self.bio)));
        r.push(SettingsField::Email(self.email));
        r.push(SettingsField::Password(String::new()));
        r
    }
}

} // verus!
