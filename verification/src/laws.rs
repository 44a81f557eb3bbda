use vstd::prelude::*;

use crate::message::{
    lemma_net_retains_append, net_retains, occurrences, release_all, retain_all, RcMessage,
};

verus! {

/// An `Id` that retained its object when it was made (by `from_ptr`,
/// `maybe_from_ptr` on a non-null address, or `clone`) and is later
/// released leaves the retain count of every object as it was, whatever was
/// sent while it lived: its `retain` and its `release` cancel.
pub proof fn law_retained_id_lifetime_balanced(
    before: Seq<RcMessage>,
    during: Seq<RcMessage>,
    p: usize,
    obj: usize,
)
    ensures
        net_retains((before.push(RcMessage::Retain(p)) + during).push(RcMessage::Release(p)), obj)
            == net_retains(before + during, obj),
{
    let with_retain = before.push(RcMessage::Retain(p)) + during;
    assert(before.push(RcMessage::Retain(p)) =~= before + seq![RcMessage::Retain(p)]);
    lemma_net_retains_append(before, seq![RcMessage::Retain(p)], obj);
    lemma_net_retains_append(before.push(RcMessage::Retain(p)), during, obj);
    lemma_net_retains_append(before, during, obj);
    assert(net_retains(seq![RcMessage::Retain(p)], obj) == (if p == obj { 1int } else { 0int })) by {
        let single = seq![RcMessage::Retain(p)];
        assert(single.drop_last() =~= Seq::<RcMessage>::empty());
        assert(net_retains(Seq::<RcMessage>::empty(), obj) == 0);
        assert(single.last() == RcMessage::Retain(p));
    }
    assert(with_retain.push(RcMessage::Release(p)).drop_last() =~= with_retain);
}

/// An `Id` made from an already retained object (by `from_retained_ptr` or
/// `maybe_from_retained_ptr`) takes that retain over: releasing it lowers the
/// retain count of its object by one and leaves every other object's as it
/// was.
pub proof fn law_retained_ptr_release_takes_over(log: Seq<RcMessage>, p: usize, obj: usize)
    ensures
        net_retains(log.push(RcMessage::Release(p)), obj) == net_retains(log, obj) - (if p
            == obj {
            1int
        } else {
            0int
        }),
{
    assert(log.push(RcMessage::Release(p)).drop_last() =~= log);
}

/// `into_id_vec` retains each object once for each time its address occurs.
pub proof fn law_retain_all_counts(addrs: Seq<usize>, obj: usize)
    ensures
        net_retains(retain_all(addrs), obj) == occurrences(addrs, obj),
    decreases addrs.len(),
{
    if addrs.len() > 0 {
        law_retain_all_counts(addrs.drop_last(), obj);
        assert(retain_all(addrs).drop_last() =~= retain_all(addrs.drop_last()));
    }
}

/// Releasing the `Id`s made for a list of addresses lowers each object's
/// retain count once for each time its address occurs.
pub proof fn law_release_all_counts(addrs: Seq<usize>, obj: usize)
    ensures
        net_retains(release_all(addrs), obj) == -occurrences(addrs, obj),
    decreases addrs.len(),
{
    if addrs.len() > 0 {
        law_release_all_counts(addrs.drop_last(), obj);
        assert(release_all(addrs).drop_last() =~= release_all(addrs.drop_last()));
    }
}

/// The `Id`s that `into_id_vec` makes, once all released, leave every
/// object's retain count as it was before the call, whatever was sent in
/// between.
pub proof fn law_into_id_vec_balanced(
    before: Seq<RcMessage>,
    addrs: Seq<usize>,
    during: Seq<RcMessage>,
    obj: usize,
)
    ensures
        net_retains(before + retain_all(addrs) + during + release_all(addrs), obj) == net_retains(
            before + during,
            obj,
        ),
{
    law_retain_all_counts(addrs, obj);
    law_release_all_counts(addrs, obj);
    lemma_net_retains_append(before, retain_all(addrs), obj);
    lemma_net_retains_append(before + retain_all(addrs), during, obj);
    lemma_net_retains_append(before + retain_all(addrs) + during, release_all(addrs), obj);
    lemma_net_retains_append(before, during, obj);
}

} // verus!
