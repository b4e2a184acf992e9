//! The event handler: one raw inbound event taken through the whole
//! pipeline — normalize, gate, dispatch.

use vstd::prelude::*;
use crate::dispatch::{dispatch, report_indices, matching_indices, CommandHandler, InvocationRecord};
use crate::errors::{DecodeError, UnknownUserError};
use crate::json::{json_ok, normalize, normalized_fields};
use crate::message::{eligible, is_eligible};
use crate::pattern::regex_captures;
use crate::registry::CommandRegistry;
use crate::reply::SendCapability;
use crate::users::{directory_knows, User};

verus! {

/// What handling one raw event came to.
#[derive(Debug)]
pub enum EventOutcome {
    /// The payload was not a well-formed structured record; the event is
    /// dropped and the failure surfaced here, never a crash.
    Malformed(DecodeError),
    /// The event is not a genuine user chat message (wrong type, a
    /// subtype present, or a required field absent); expected traffic,
    /// silently ignored.
    Ignored,
    /// The sender id could not be resolved in the user directory; dispatch
    /// of this one message was abandoned before any handler ran.
    UnknownUser(UnknownUserError),
    /// The message was dispatched: one record per matching pattern, in
    /// registration order.
    Dispatched(Vec<InvocationRecord>),
}

/// The bot's event handler: a name and a command registry, built once at
/// startup; each inbound event is then processed to completion in arrival
/// order.
pub struct SlackBotEventHandler<H> {
    bot_name: String,
    registry: CommandRegistry<H>,
}

impl<H> SlackBotEventHandler<H> {
    /// The name the bot goes by.
    pub closed spec fn spec_bot_name(&self) -> Seq<char> {
        self.bot_name@
    }

    /// The registry consulted for every dispatched message.
    pub closed spec fn spec_registry(&self) -> CommandRegistry<H> {
        self.registry
    }

    /// A handler over the given registry.
    pub fn new(name: String, registry: CommandRegistry<H>) -> (r: Self)
        ensures
            r.spec_bot_name() == name@,
            r.spec_registry() == registry,
    {
        SlackBotEventHandler { bot_name: name, registry }
    }

    /// The name the bot goes by.
    pub fn bot_name(&self) -> (r: &String)
        ensures
            r@ == self.spec_bot_name(),
    {
        &self.bot_name
    }

    /// The registry consulted for every dispatched message.
    pub fn registry(&self) -> (r: &CommandRegistry<H>)
        ensures
            *r == self.spec_registry(),
    {
        &self.registry
    }

    /// Takes one raw inbound event through the pipeline: decode it, gate it
    /// to genuine user chat messages, resolve its sender against `users`,
    /// and invoke every registered handler whose pattern matches its text,
    /// in registration order. Each step's outcome, error or dispatch
    /// report, is returned; nothing here panics or aborts later events.
    pub fn on_event<S: SendCapability>(
        &self,
        payload: &str,
        users: &Vec<User>,
        sender: &S,
    ) -> (r: EventOutcome) where H: CommandHandler<S>
        ensures
            r is Malformed <==> !json_ok(payload@),
            json_ok(payload@) ==> (r is Ignored <==> !is_eligible(normalized_fields(payload@))),
            r is UnknownUser <==> json_ok(payload@) && is_eligible(normalized_fields(payload@))
                && !directory_knows(users@, normalized_fields(payload@).sender_id->Some_0),
            r matches EventOutcome::UnknownUser(e)
                ==> e.sender_id@ == normalized_fields(payload@).sender_id->Some_0,
            r is Dispatched <==> json_ok(payload@) && is_eligible(normalized_fields(payload@))
                && directory_knows(users@, normalized_fields(payload@).sender_id->Some_0),
            r matches EventOutcome::Dispatched(report) ==> report_indices(report@)
                == matching_indices(
                    self.spec_registry().patterns(),
                    normalized_fields(payload@).text->Some_0,
                )
                && (forall|j: int| 0 <= j < report@.len()
                    ==> (#[trigger] report@[j]).pattern_index
                            < self.spec_registry().patterns().len()
                        && Some(report@[j].match_data@)
                            == regex_captures(
                                self.spec_registry().patterns()[report@[j].pattern_index as int],
                                normalized_fields(payload@).text->Some_0,
                            )
                        && report@[j].channel_id@
                            == normalized_fields(payload@).channel_id->Some_0
                        && report@[j].user_id@
                            == normalized_fields(payload@).sender_id->Some_0),
    {
        let msg = match normalize(payload) {
            Ok(m) => m,
            Err(e) => return EventOutcome::Malformed(e),
        };
        let gated = match eligible(&msg) {
            Some(g) => g,
            None => return EventOutcome::Ignored,
        };
        match dispatch(&gated, &self.registry, users, sender) {
            Ok(report) => EventOutcome::Dispatched(report),
            Err(e) => EventOutcome::UnknownUser(e),
        }
    }
}

} // verus!
