//! Per-operator state: stored credentials and the default reaction to a
//! pasted lesson url.

use vstd::prelude::*;

use crate::ids::{Password, Username};

verus! {

/// The opaque, stable identity of one chat participant.
#[derive(Debug, Clone, Copy, Hash, PartialEq, Eq, Structural)]
pub struct UserId(pub i64);

/// What to do when a message carries a lesson url.
#[derive(Debug, Clone, Copy, PartialEq, Eq, Structural)]
pub enum UrlAction {
    /// Enroll when logged in, otherwise notify.
    Default,
    /// Always notify.
    Notify,
    /// Always enroll.
    Enroll,
}

impl UrlAction {
    /// The setting's display name.
    pub open spec fn name(&self) -> Seq<char> {
        match self {
            UrlAction::Default => "Default"@,
            UrlAction::Notify => "Notify"@,
            UrlAction::Enroll => "Enroll"@,
        }
    }

    /// Reads a setting from its digit: 0, 1 or 2.
    pub fn from_str(s: &str) -> (r: Result<UrlAction, String>)
        ensures
            match r {
                Ok(a) => (a is Default <==> s@ == "0"@) && (a is Notify <==> s@ == "1"@) && (
                a is Enroll <==> s@ == "2"@),
                Err(e) => s@ != "0"@ && s@ != "1"@ && s@ != "2"@ && e@
                    == "Use one of following: 0: Default, 1: Notify, 2: Enroll"@,
            },
    {
        proof {
            reveal_strlit("0");
            reveal_strlit("1");
            reveal_strlit("2");
        }
        if s.unicode_len() == 1 {
            let c = s.get_char(0);
            proof {
                assert(c == '0' ==> s@ =~= "0"@);
                assert(c == '1' ==> s@ =~= "1"@);
                assert(c == '2' ==> s@ =~= "2"@);
            }
            match c {
                '0' => Ok(UrlAction::Default),
                '1' => Ok(UrlAction::Notify),
                '2' => Ok(UrlAction::Enroll),
                _ => Err("Use one of following: 0: Default, 1: Notify, 2: Enroll".to_owned()),
            }
        } else {
            Err("Use one of following: 0: Default, 1: Notify, 2: Enroll".to_owned())
        }
    }

    /// The display name, for the settings-changed reply.
    pub fn name_str(&self) -> (r: &'static str)
        ensures
            r@ == self.name(),
    {
        match self {
            UrlAction::Default => "Default",
            UrlAction::Notify => "Notify",
            UrlAction::Enroll => "Enroll",
        }
    }
}

/// An operator's stored login.  Deliberately without `Debug`: the
/// password must never reach a log line.
#[derive(Clone)]
pub struct LoginCredentials {
    pub username: Username,
    pub password: Password,
}

impl LoginCredentials {
    pub fn new(username: Username, password: Password) -> (r: LoginCredentials)
        ensures
            r.username@ == username@ && r.password@ == password@,
    {
        LoginCredentials { username, password }
    }

    pub fn update(&mut self, username: Username, password: Password)
        ensures
            final(self).username@ == username@ && final(self).password@ == password@,
    {
        self.username = username;
        self.password = password;
    }
}

/// An operator's settings.
#[derive(Debug, Clone)]
pub struct Settings {
    pub url_action: UrlAction,
}

impl Settings {
    pub fn new() -> (r: Settings)
        ensures
            r.url_action is Default,
    {
        Settings { url_action: UrlAction::Default }
    }
}

/// Everything remembered about one operator.
#[derive(Clone)]
pub struct UserState {
    pub credentials: Option<LoginCredentials>,
    pub settings: Settings,
}

/// The mathematical value of an operator's state: the credential
/// characters, if any, and the url setting.
pub struct UserStateView {
    pub credentials: Option<(Seq<char>, Seq<char>)>,
    pub url_action: UrlAction,
}

impl View for UserState {
    type V = UserStateView;

    open spec fn view(&self) -> UserStateView {
        UserStateView {
            credentials: match &self.credentials {
                Some(c) => Some((c.username@, c.password@)),
                None => None,
            },
            url_action: self.settings.url_action,
        }
    }
}

/// A fresh operator entry: no credentials, default url behavior.
pub open spec fn default_user() -> UserStateView {
    UserStateView { credentials: None, url_action: UrlAction::Default }
}

impl UserState {
    pub fn new() -> (r: UserState)
        ensures
            r@ == default_user(),
    {
        UserState { credentials: None, settings: Settings::new() }
    }

    pub fn with_credentials(credentials: LoginCredentials) -> (r: UserState)
        ensures
            r@.credentials == Some((credentials.username@, credentials.password@)),
            r@.url_action is Default,
    {
        UserState { credentials: Some(credentials), settings: Settings::new() }
    }
}

} // verus!
