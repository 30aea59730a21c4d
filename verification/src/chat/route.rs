//! Which connected sessions a broadcast reaches.

use std::collections::HashMap;
use vstd::prelude::*;
use vstd::std_specs::hash::spec_keys_iter;
use vstd::std_specs::iter::IteratorSpec;

verus! {

broadcast use vstd::std_specs::hash::group_hash_axioms;

/// One message handed to one session: the session's id, a handle on its
/// mailbox, and the message itself.
pub struct Delivery<R, M> {
    pub to: u128,
    pub recipient: R,
    pub msg: M,
}

/// Narrows a broadcast to one session, or to all sessions but one.
pub enum MessageFilter {
    Include(u128),
    Exclude(u128),
}

/// Whether a broadcast under `filter` reaches the session `id`.
pub open spec fn admits(filter: Option<MessageFilter>, id: u128) -> bool {
    match filter {
        None => true,
        Some(MessageFilter::Include(x)) => id == x,
        Some(MessageFilter::Exclude(x)) => id != x,
    }
}

/// `out` reaches each session of `sessions` that `filter` admits exactly
/// once, through a clone of that session's handle, and no other session.
pub open spec fn reaches<R: Clone, M>(
    out: Seq<Delivery<R, M>>,
    sessions: Map<u128, R>,
    filter: Option<MessageFilter>,
) -> bool {
    &&& forall|i: int|
        #![trigger out[i]]
        0 <= i < out.len() ==> {
            &&& sessions.contains_key(out[i].to)
            &&& admits(filter, out[i].to)
            &&& cloned::<R>(sessions[out[i].to], out[i].recipient)
        }
    &&& forall|id: u128|
        #![trigger sessions.contains_key(id)]
        sessions.contains_key(id) && admits(filter, id) ==> exists|i: int|
            0 <= i < out.len() && #[trigger] out[i].to == id
    &&& forall|i: int, j: int| 0 <= i < j < out.len() ==> out[i].to != out[j].to
}

/// Hands `msg` to the sessions that a broadcast under `filter` reaches, in
/// the order in which the map is walked.
pub fn route<R: Clone, M: Clone>(
    sessions: &HashMap<u128, R>,
    filter: &Option<MessageFilter>,
    msg: &M,
) -> (out: Vec<Delivery<R, M>>)
    ensures
        reaches(out@, sessions@, *filter),
        forall|i: int| 0 <= i < out@.len() ==> cloned::<M>(*msg, #[trigger] out@[i].msg),
{
    let mut out: Vec<Delivery<R, M>> = Vec::new();
    let ghost keys = spec_keys_iter(sessions).remaining();
    for id in it: sessions.keys()
        invariant
            it.seq() == keys,
            keys.no_duplicates(),
            keys.unref().to_set() == sessions@.dom(),
            forall|i: int|
                #![trigger out@[i]]
                0 <= i < out@.len() ==> {
                    &&& sessions@.contains_key(out@[i].to)
                    &&& admits(*filter, out@[i].to)
                    &&& cloned::<R>(sessions@[out@[i].to], out@[i].recipient)
                    &&& cloned::<M>(*msg, out@[i].msg)
                    &&& exists|k: int| 0 <= k < it.index() && *keys[k] == out@[i].to
                },
            forall|k: int|
                0 <= k < it.index() && admits(*filter, *keys[k]) ==> exists|i: int|
                    0 <= i < out@.len() && #[trigger] out@[i].to == *keys[k],
            forall|i: int, j: int| 0 <= i < j < out@.len() ==> out@[i].to != out@[j].to,
    {
        let ghost old_out = out@;
        let ghost k0 = it.index();
        proof {
            assert(keys.unref()[k0] == *id);
        }
        let admitted = match filter {
            None => true,
            Some(MessageFilter::Include(x)) => *id == *x,
            Some(MessageFilter::Exclude(x)) => *id != *x,
        };
        if admitted {
            match sessions.get(id) {
                Some(r) => {
                    out.push(Delivery { to: *id, recipient: r.clone(), msg: msg.clone() });
                },
                None => {},
            }
        }
        proof {
            assert forall|k: int|
                0 <= k < k0 + 1 && admits(*filter, *keys[k]) implies exists|i: int|
                0 <= i < out@.len() && #[trigger] out@[i].to == *keys[k] by {
                if k < k0 {
                    let i: int = choose|i: int|
                        0 <= i < old_out.len() && #[trigger] old_out[i].to == *keys[k];
                    assert(out@[i] == old_out[i]);
                } else {
                    assert(out@[out@.len() - 1].to == *keys[k]);
                }
            }
        }
    }
    out
}

/// A broadcast without a filter reaches every connected session: each
/// session of `sessions` gets exactly one of the deliveries.
pub proof fn unfiltered_broadcast_reaches_all<R: Clone, M>(
    out: Seq<Delivery<R, M>>,
    sessions: Map<u128, R>,
)
    requires
        reaches(out, sessions, None),
    ensures
        forall|id: u128|
            #![trigger sessions.contains_key(id)]
            sessions.contains_key(id) ==> exists|i: int|
                0 <= i < out.len() && (#[trigger] out[i]).to == id,
        forall|i: int| 0 <= i < out.len() ==> sessions.contains_key((#[trigger] out[i]).to),
{
    assert forall|id: u128| sessions.contains_key(id) implies exists|i: int|
        0 <= i < out.len() && (#[trigger] out[i]).to == id by {
        assert(sessions.contains_key(id) && admits(None, id));
    }
}

} // verus!
