use vstd::prelude::*;

verus! {

/// A reference-counting message that an `Id` sends to its object through the
/// Objective-C runtime. The payload is the object's address.
///
/// The library does not talk to the runtime itself: the operations that would
/// message an object append the message to an outbox (a `Vec<RcMessage>`),
/// which the caller delivers in order.
#[derive(Clone, Copy, Debug, PartialEq, Eq, Structural)]
pub enum RcMessage {
    /// `retain`: one more reference holds the object.
    Retain(usize),
    /// `release`: one reference to the object has gone away.
    Release(usize),
}

/// The change one message makes to the retain count of the object at `obj`.
pub open spec fn message_delta(m: RcMessage, obj: usize) -> int {
    match m {
        RcMessage::Retain(p) => if p == obj { 1int } else { 0int },
        RcMessage::Release(p) => if p == obj { -1int } else { 0int },
    }
}

/// The net change that delivering `log` makes to the retain count of the
/// object at `obj`.
pub open spec fn net_retains(log: Seq<RcMessage>, obj: usize) -> int
    decreases log.len(),
{
    if log.len() == 0 {
        0
    } else {
        net_retains(log.drop_last(), obj) + message_delta(log.last(), obj)
    }
}

/// The `retain` messages for each address of `addrs`, in order.
pub open spec fn retain_all(addrs: Seq<usize>) -> Seq<RcMessage> {
    addrs.map_values(|p: usize| RcMessage::Retain(p))
}

/// The `release` messages for each address of `addrs`, in order.
pub open spec fn release_all(addrs: Seq<usize>) -> Seq<RcMessage> {
    addrs.map_values(|p: usize| RcMessage::Release(p))
}

/// How many times `obj` occurs in `addrs`.
pub open spec fn occurrences(addrs: Seq<usize>, obj: usize) -> int
    decreases addrs.len(),
{
    if addrs.len() == 0 {
        0
    } else {
        occurrences(addrs.drop_last(), obj) + if addrs.last() == obj { 1int } else { 0int }
    }
}

/// Delivering two logs one after the other changes each retain count by the
/// sum of what each log changes it by.
pub proof fn lemma_net_retains_append(a: Seq<RcMessage>, b: Seq<RcMessage>, obj: usize)
    ensures
        net_retains(a + b, obj) == net_retains(a, obj) + net_retains(b, obj),
    decreases b.len(),
{
    if b.len() == 0 {
        assert(a + b =~= a);
    } else {
        lemma_net_retains_append(a, b.drop_last(), obj);
        assert((a + b).drop_last() =~= a + b.drop_last());
    }
}

} // verus!
