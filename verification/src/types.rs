//! What a dispatcher handles: bots, updates, and the keys by which updates are
//! grouped.

use vstd::prelude::*;

verus! {

/// A bot: the token under which it talks to the messaging service.
#[derive(Debug, PartialEq, Eq)]
pub struct Bot {
    pub token: String,
}

impl Bot {
    /// Creates a bot with the given token.
    pub fn new(token: String) -> (bot: Bot)
        ensures
            bot.token == token,
    {
        Bot { token }
    }
}

impl Clone for Bot {
    fn clone(&self) -> (bot: Bot)
        ensures
            bot == *self,
    {
        Bot { token: self.token.clone() }
    }
}

/// What the messaging service knows about the bot itself.
#[derive(Debug, PartialEq, Eq)]
pub struct Me {
    pub id: u64,
    pub username: String,
}

impl Clone for Me {
    fn clone(&self) -> (me: Me)
        ensures
            me == *self,
    {
        Me { id: self.id, username: self.username.clone() }
    }
}

/// An update from the messaging service.
#[derive(Debug, PartialEq, Eq)]
pub struct Update {
    pub id: i32,
    /// The chat that the update belongs to, where that can be determined.
    pub chat: Option<i64>,
    pub kind: UpdateKind,
}

/// The content of an update.
#[derive(Debug, PartialEq, Eq)]
pub enum UpdateKind {
    /// The update was understood. Holds its body.
    Event(String),
    /// The update could not be parsed. Says why.
    Error(String),
}

impl Clone for UpdateKind {
    fn clone(&self) -> (kind: UpdateKind)
        ensures
            kind == *self,
    {
        match self {
            UpdateKind::Event(body) => UpdateKind::Event(body.clone()),
            UpdateKind::Error(error) => UpdateKind::Error(error.clone()),
        }
    }
}

impl Clone for Update {
    fn clone(&self) -> (update: Update)
        ensures
            update == *self,
    {
        Update { id: self.id, chat: self.chat, kind: self.kind.clone() }
    }
}

impl Update {
    /// The update was parsed, so that a handler can be given it.
    pub open spec fn is_parsed(self) -> bool {
        self.kind is Event
    }
}

/// The key by which [`default_distribution_function`] groups updates: a chat's
/// identifier.
pub type DefaultKey = i64;

/// Groups updates by their chat; an update without a chat has no key.
pub fn default_distribution_function(update: &Update) -> (key: Option<DefaultKey>)
    ensures
        key == update.chat,
{
    update.chat
}

} // verus!
