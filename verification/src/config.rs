//! Typed settings of the relay.

use vstd::prelude::*;
use vstd::string::*;

use jid::BareJid;

use crate::text::{decimal, decimal_string, same_text};

verus! {

#[derive(Clone, Debug)]
pub struct Settings {
    pub app: AppSettings,
    pub xmpp: XMPPSettings,
    pub webhook: WebhookSettings,
}

#[derive(Clone, Debug)]
pub struct AppSettings {
    pub port: u16,
    pub host: String,
    pub base_url: String,
}

#[derive(Clone, Debug)]
pub struct XMPPSettings {
    pub jid: BareJid,
    pub password: String,
}

#[derive(Clone, Debug)]
pub struct WebhookSettings {
    pub repos: Vec<RepoSettings>,
}

#[derive(Clone, Debug)]
pub struct RepoSettings {
    pub repo: String,
    pub room: BareJid,
}

/// The deployment the process runs in; it selects the settings file.
#[derive(Clone, Copy, Debug, PartialEq, Eq, Structural)]
pub enum Environment {
    Local,
    Production,
}

/// A name that stands for no environment.
#[derive(Debug)]
pub struct UnsupportedEnvironment {
    pub name: String,
}

/// The text `str::to_lowercase` gives for a text: each character replaced by
/// its Unicode lowercase form.
pub uninterp spec fn lowercase(text: Seq<char>) -> Seq<char>;

/// `str::to_lowercase` of std. The result is a function of the text alone;
/// the contract gives it the name `lowercase` and claims nothing more.
#[verifier::external_body]
fn to_lowercase(text: &str) -> (lowered: String)
    ensures
        lowered@ == lowercase(text@),
{
    text.to_lowercase()
}

/// The rooms that the settings name, one for each repository and in the order
/// of the repositories.
pub open spec fn rooms_of(repos: Seq<RepoSettings>) -> Seq<BareJid> {
    repos.map_values(|setting: RepoSettings| setting.room)
}

/// The environment that a name in lower case stands for.
pub open spec fn environment_named(name: Seq<char>) -> Option<Environment> {
    if name == "local"@ {
        Some(Environment::Local)
    } else if name == "production"@ {
        Some(Environment::Production)
    } else {
        None
    }
}

impl AppSettings {
    /// The socket address to listen on: the host, a colon, and the port in
    /// base ten.
    pub open spec fn address_text(self) -> Seq<char> {
        self.host@ + ":"@ + decimal(self.port as nat)
    }

    pub fn address(&self) -> (address: String)
        ensures
            address@ == self.address_text(),
    {
        let mut address = self.host.clone();
        address.append(":");
        address.append(decimal_string(self.port as u64).as_str());
        address
    }
}

impl WebhookSettings {
    /// The rooms to join once the session is up.
    pub fn rooms(&self) -> (rooms: Vec<BareJid>)
        ensures
            rooms@ == rooms_of(self.repos@),
    {
        let mut rooms: Vec<BareJid> = Vec::new();
        let mut index: usize = 0;
        while index < self.repos.len()
            invariant
                index <= self.repos.len(),
                rooms.len() == index,
                forall|i: int| 0 <= i < index ==> rooms@[i] == self.repos@[i].room,
            decreases self.repos.len() - index,
        {
            rooms.push(self.repos[index].room.clone());
            index = index + 1;
        }
        assert(rooms@ =~= rooms_of(self.repos@));
        rooms
    }
}

impl UnsupportedEnvironment {
    /// What to tell the operator: the name, and the names that are supported.
    pub open spec fn message_text(self) -> Seq<char> {
        self.name@
            + " is not a supported environment.\n          Use either `local` or `production`."@
    }

    pub fn message(&self) -> (message: String)
        ensures
            message@ == self.message_text(),
    {
        let mut message = self.name.clone();
        message.append(" is not a supported environment.\n          Use either `local` or `production`.");
        message
    }
}

impl Environment {
    /// The name of the environment as it appears in file names.
    pub open spec fn name(self) -> Seq<char> {
        match self {
            Environment::Local => "local"@,
            Environment::Production => "production"@,
        }
    }

    pub fn as_str(&self) -> (name: &'static str)
        ensures
            name@ == self.name(),
    {
        match self {
            Environment::Local => "local",
            Environment::Production => "production",
        }
    }

    /// Reads an environment's name whatever its case. A name that stands for
    /// no environment comes back in lower case.
    pub fn try_from(value: String) -> (parsed: Result<Environment, UnsupportedEnvironment>)
        ensures
            match environment_named(lowercase(value@)) {
                Some(environment) => parsed == Ok::<Environment, UnsupportedEnvironment>(environment),
                None => parsed matches Err(error) && error.name@ == lowercase(value@),
            },
    {
        Environment::from_lowercase(to_lowercase(value.as_str()))
    }

    /// The environment that a name in lower case stands for, or the name back
    /// where it stands for none.
    pub fn from_lowercase(name: String) -> (parsed: Result<Environment, UnsupportedEnvironment>)
        ensures
            match environment_named(name@) {
                Some(environment) => parsed == Ok::<Environment, UnsupportedEnvironment>(environment),
                None => parsed == Err::<Environment, UnsupportedEnvironment>(UnsupportedEnvironment { name }),
            },
    {
        if same_text(name.as_str(), "local") {
            Ok(Environment::Local)
        } else if same_text(name.as_str(), "production") {
            Ok(Environment::Production)
        } else {
            Err(UnsupportedEnvironment { name })
        }
    }
}

} // verus!
