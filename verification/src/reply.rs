//! Reply contexts and match data: what a matched handler is handed.

use vstd::prelude::*;
use crate::errors::SendError;
use crate::users::User;

verus! {

/// The send interface the transport layer supplies: delivering `text` to
/// the channel `channel_id` over the established connection. Implemented
/// outside the core; the core only forwards to it.
pub trait SendCapability {
    /// Delivers `text` to `channel_id`, or reports why it could not.
    fn send_to(&self, channel_id: &str, text: &str) -> Result<(), SendError>;
}

/// A short-lived capability bundle bound to one (channel, user) pair and
/// one send capability. Created fresh per (message, matched handler)
/// invocation and offered to exactly that one handler invocation.
pub struct ReplyContext<'a, S: SendCapability> {
    channel_id: String,
    user: &'a User,
    sender: &'a S,
}

impl<'a, S: SendCapability> ReplyContext<'a, S> {
    /// The channel every reply through this context goes to.
    pub closed spec fn spec_channel_id(&self) -> Seq<char> {
        self.channel_id@
    }

    /// The resolved sender of the message being answered.
    pub closed spec fn spec_user(&self) -> User {
        *self.user
    }

    pub(crate) fn new(channel_id: String, user: &'a User, sender: &'a S) -> (r: Self)
        ensures
            r.spec_channel_id() == channel_id@,
            r.spec_user() == *user,
    {
        ReplyContext { channel_id, user, sender }
    }

    /// The channel this context is bound to.
    pub fn channel_id(&self) -> (r: &String)
        ensures
            r@ == self.spec_channel_id(),
    {
        &self.channel_id
    }

    /// The resolved user this context is bound to.
    pub fn user(&self) -> (r: &User)
        ensures
            *r == self.spec_user(),
    {
        self.user
    }

    /// Sends one reply to the bound channel through the bound send
    /// capability. The outcome is the transport's to decide; a failure is
    /// surfaced to the calling handler and the core does not retry.
    pub fn send(&self, text: &str) -> Result<(), SendError> {
        self.sender.send_to(self.channel_id.as_str(), text)
    }
}

/// The capture groups produced by applying one pattern to the message
/// text, passed by value to exactly one handler invocation. Group 0 is the
/// overall match; a group that took no part in the match is `None`.
#[derive(Debug)]
pub struct MatchData {
    groups: Vec<Option<String>>,
}

impl View for MatchData {
    type V = Seq<Option<Seq<char>>>;

    closed spec fn view(&self) -> Seq<Option<Seq<char>>> {
        self.groups.deep_view()
    }
}

impl MatchData {
    pub(crate) fn new(groups: Vec<Option<String>>) -> (r: Self)
        ensures
            r@ == groups.deep_view(),
    {
        MatchData { groups }
    }

    /// The number of capture groups, the overall match included.
    pub fn len(&self) -> (r: usize)
        ensures
            r == self@.len(),
    {
        self.groups.len()
    }

    /// Capture group `i`: its text if it took part in the match.
    pub fn group(&self, i: usize) -> (r: Option<&String>)
        requires
            i < self@.len(),
        ensures
            r matches Some(s) ==> self@[i as int] == Some(s@),
            r is None <==> self@[i as int] is None,
    {
        match &self.groups[i] {
            Some(s) => Some(s),
            None => None,
        }
    }
}

} // verus!
