//! The dispatcher: multi-match broadcast of one eligible message to every
//! registered handler whose pattern matches the message text.
//!
//! Dispatch is stateless per event and strictly sequential per message:
//! entries are tested in registration order, and every matching handler is
//! invoked — a failing handler is recorded and does not stop the remaining
//! matching handlers from running.

use vstd::prelude::*;
use crate::errors::{HandlerError, UnknownUserError};
use crate::message::EligibleMessage;
use crate::pattern::{regex_captures, regex_matches};
use crate::registry::CommandRegistry;
use crate::reply::{MatchData, ReplyContext, SendCapability};
use crate::users::{directory_knows, find_user, User};

verus! {

/// A command handler capability, registered ahead of time, one per
/// pattern. The business logic behind it is not the core's concern; the
/// core only promises when and with what data it is invoked.
pub trait CommandHandler<S: SendCapability> {
    /// Handles one matched message: `ctx` is bound to the message's channel
    /// and resolved sender, `m` holds the pattern's capture groups.
    fn handle(&self, ctx: &ReplyContext<S>, m: &MatchData) -> Result<(), HandlerError>;
}

/// The indices of the patterns in `ps` that match the text `t`, in
/// ascending (registration) order.
pub open spec fn matching_indices(ps: Seq<Seq<char>>, t: Seq<char>) -> Seq<int>
    decreases ps.len(),
{
    if ps.len() == 0 {
        Seq::empty()
    } else {
        matching_indices(ps.drop_last(), t) + if regex_matches(ps.last(), t) {
            seq![ps.len() - 1]
        } else {
            Seq::empty()
        }
    }
}

/// What `matching_indices` singles out: every entry is the index of a
/// matching pattern, the entries ascend strictly (registration order), and
/// every matching pattern's index is among them.
pub proof fn lemma_matching_indices_exact(ps: Seq<Seq<char>>, t: Seq<char>)
    ensures
        forall|j: int| 0 <= j < matching_indices(ps, t).len()
            ==> 0 <= #[trigger] matching_indices(ps, t)[j] < ps.len()
                && regex_matches(ps[matching_indices(ps, t)[j]], t),
        forall|j1: int, j2: int| 0 <= j1 < j2 < matching_indices(ps, t).len()
            ==> matching_indices(ps, t)[j1] < matching_indices(ps, t)[j2],
        forall|i: int| 0 <= i < ps.len() && regex_matches(ps[i], t)
            ==> matching_indices(ps, t).contains(i),
    decreases ps.len(),
{
    if ps.len() > 0 {
        let prefix = ps.drop_last();
        lemma_matching_indices_exact(prefix, t);
        assert(forall|i: int| 0 <= i < prefix.len() ==> prefix[i] == ps[i]);
        let mi = matching_indices(ps, t);
        let mip = matching_indices(prefix, t);
        assert(forall|j: int| 0 <= j < mip.len() ==> mi[j] == mip[j]);
        assert forall|i: int| 0 <= i < ps.len() && regex_matches(ps[i], t)
            implies mi.contains(i) by {
            if i < ps.len() - 1 {
                assert(prefix[i] == ps[i]);
                assert(mip.contains(i));
                let j = choose|j: int| 0 <= j < mip.len() && mip[j] == i;
                assert(mi[j] == i);
                assert(mi.contains(i));
            } else {
                assert(ps.last() == ps[i]);
                assert(regex_matches(ps.last(), t));
                assert(mi.len() == mip.len() + 1);
                assert(mi[mi.len() - 1] == i);
                assert(mi.contains(i));
            }
        }
    }
}

/// When exactly one pattern matches, exactly one index is dispatched: the
/// matching one.
pub proof fn lemma_single_match(ps: Seq<Seq<char>>, t: Seq<char>, i: int)
    requires
        0 <= i < ps.len(),
        regex_matches(ps[i], t),
        forall|j: int| 0 <= j < ps.len() && j != i ==> !regex_matches(ps[j], t),
    ensures
        matching_indices(ps, t) == seq![i],
{
    lemma_matching_indices_exact(ps, t);
    let mi = matching_indices(ps, t);
    assert(mi.contains(i));
    assert(mi.len() >= 1);
    assert(forall|j: int| 0 <= j < mi.len() ==> mi[j] == i);
    if mi.len() >= 2 {
        assert(mi[0] < mi[1]);
        assert(false);
    }
    assert(mi =~= seq![i]);
}

/// One entry of a dispatch report: which registry entry matched, the match
/// data its handler was invoked with, and whether that invocation
/// succeeded.
#[derive(Debug)]
pub struct InvocationRecord {
    /// The index of the matching entry, in registration order.
    pub pattern_index: usize,
    /// The channel the invocation's reply context was bound to.
    pub channel_id: String,
    /// The id of the resolved user the reply context was bound to.
    pub user_id: String,
    /// The capture groups the handler was handed.
    pub match_data: MatchData,
    /// False exactly when the handler reported a `HandlerError`; the
    /// failure never stops the remaining matching handlers.
    pub succeeded: bool,
}

/// The indices a report lists, as a sequence.
pub open spec fn report_indices(report: Seq<InvocationRecord>) -> Seq<int> {
    report.map_values(|rec: InvocationRecord| rec.pattern_index as int)
}

/// Invokes, in registration order, every registered handler whose pattern
/// matches the message text, each with a fresh reply context bound to the
/// message's channel and the resolved `user`, and each with that match's
/// capture groups. Returns one record per invocation; a handler failure is
/// recorded and does not prevent the invocations after it.
pub fn dispatch_resolved<S: SendCapability, H: CommandHandler<S>>(
    msg: &EligibleMessage,
    registry: &CommandRegistry<H>,
    user: &User,
    sender: &S,
) -> (report: Vec<InvocationRecord>)
    ensures
        report_indices(report@) == matching_indices(registry.patterns(), msg@.text),
        forall|j: int| 0 <= j < report@.len()
            ==> (#[trigger] report@[j]).pattern_index < registry.patterns().len()
                && Some(report@[j].match_data@)
                    == regex_captures(registry.patterns()[report@[j].pattern_index as int], msg@.text)
                && report@[j].channel_id@ == msg@.channel_id
                && report@[j].user_id@ == user.id@,
{
    let ghost ps = registry.patterns();
    let ghost t = msg@.text;
    let mut report: Vec<InvocationRecord> = Vec::new();
    let n = registry.len();
    let mut i: usize = 0;
    proof {
        assert(report_indices(report@) =~= matching_indices(ps.take(0), t));
    }
    while i < n
        invariant
            n == ps.len(),
            i <= n,
            ps == registry.patterns(),
            t == msg@.text,
            report_indices(report@) == matching_indices(ps.take(i as int), t),
            forall|j: int| 0 <= j < report@.len()
                ==> (#[trigger] report@[j]).pattern_index < ps.len()
                    && Some(report@[j].match_data@)
                        == regex_captures(ps[report@[j].pattern_index as int], t)
                    && report@[j].channel_id@ == msg@.channel_id
                    && report@[j].user_id@ == user.id@,
        decreases n - i,
    {
        let pattern = registry.pattern_at(i);
        match pattern.captures(msg.text().as_str()) {
            Some(groups) => {
                let match_data = MatchData::new(groups);
                let ctx = ReplyContext::new(msg.channel_id().clone(), user, sender);
                let outcome = registry.handler_at(i).handle(&ctx, &match_data);
                report.push(InvocationRecord {
                    pattern_index: i,
                    channel_id: msg.channel_id().clone(),
                    user_id: user.id.clone(),
                    match_data,
                    succeeded: outcome.is_ok(),
                });
            },
            None => {},
        }
        proof {
            assert(ps.take(i + 1).drop_last() =~= ps.take(i as int));
            assert(ps.take(i + 1).last() == ps[i as int]);
            assert(report_indices(report@) =~= matching_indices(ps.take(i + 1), t));
        }
        i += 1;
    }
    proof {
        assert(ps.take(n as int) =~= ps);
    }
    report
}

/// Dispatches one eligible message: resolves the sender against the user
/// directory listing, and on success invokes every matching handler via
/// `dispatch_resolved`. When the sender id is unknown to the directory the
/// message's dispatch is abandoned — no handler is invoked — and the error
/// reports the unresolved id.
pub fn dispatch<S: SendCapability, H: CommandHandler<S>>(
    msg: &EligibleMessage,
    registry: &CommandRegistry<H>,
    users: &Vec<User>,
    sender: &S,
) -> (r: Result<Vec<InvocationRecord>, UnknownUserError>)
    ensures
        r is Ok <==> directory_knows(users@, msg@.sender_id),
        r matches Ok(report) ==> report_indices(report@)
            == matching_indices(registry.patterns(), msg@.text)
            && (forall|j: int| 0 <= j < report@.len()
                ==> (#[trigger] report@[j]).pattern_index < registry.patterns().len()
                    && Some(report@[j].match_data@)
                        == regex_captures(
                            registry.patterns()[report@[j].pattern_index as int],
                            msg@.text,
                        )
                    && report@[j].channel_id@ == msg@.channel_id
                    && report@[j].user_id@ == msg@.sender_id),
        r matches Err(e) ==> e.sender_id@ == msg@.sender_id,
{
    let user_index = match find_user(users, msg.sender_id().as_str()) {
        Some(i) => i,
        None => {
            return Err(UnknownUserError { sender_id: msg.sender_id().clone() });
        },
    };
    Ok(dispatch_resolved(msg, registry, &users[user_index], sender))
}

} // verus!
