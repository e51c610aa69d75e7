use vstd::prelude::*;
use crate::commands::session::SSHSessionId;
use crate::registry::{distinct_ids, has_id, position, put, without, Registry};

verus! {

/// An entry that consumes the events of one channel of one session.
pub trait ChannelOwner: Sized {
    /// The session and the channel whose events the entry consumes.
    spec fn spec_channel(&self) -> (SSHSessionId, u32);

    /// The session and the channel whose events the entry consumes.
    fn channel(&self) -> (r: (SSHSessionId, u32))
        ensures
            r == self.spec_channel(),
    ;
}

/// The slots, in order, whose entry consumes the events of the channel.
pub open spec fn owned<E: ChannelOwner>(
    slots: Seq<(u128, E)>,
    ssh_session_id: SSHSessionId,
    channel_id: u32,
) -> Seq<(u128, E)>
    decreases slots.len(),
{
    if slots.len() == 0 {
        slots
    } else if slots.last().1.spec_channel() == (ssh_session_id, channel_id) {
        owned(slots.drop_last(), ssh_session_id, channel_id).push(slots.last())
    } else {
        owned(slots.drop_last(), ssh_session_id, channel_id)
    }
}

/// The slots, in order, whose entry consumes the events of another channel.
pub open spec fn not_owned<E: ChannelOwner>(
    slots: Seq<(u128, E)>,
    ssh_session_id: SSHSessionId,
    channel_id: u32,
) -> Seq<(u128, E)>
    decreases slots.len(),
{
    if slots.len() == 0 {
        slots
    } else if slots.last().1.spec_channel() == (ssh_session_id, channel_id) {
        not_owned(slots.drop_last(), ssh_session_id, channel_id)
    } else {
        not_owned(slots.drop_last(), ssh_session_id, channel_id).push(slots.last())
    }
}

/// Every slot is either among the owners of a channel or among the others:
/// an owner is found among `owned` and nowhere in `not_owned`, and the other
/// way round. Both parts keep their ids distinct.
pub proof fn lemma_owned_partition<E: ChannelOwner>(
    slots: Seq<(u128, E)>,
    ssh_session_id: SSHSessionId,
    channel_id: u32,
)
    requires
        distinct_ids(slots),
    ensures
        owned(slots, ssh_session_id, channel_id).len() + not_owned(
            slots,
            ssh_session_id,
            channel_id,
        ).len() == slots.len(),
        forall|i: int|
            0 <= i < owned(slots, ssh_session_id, channel_id).len() ==> (#[trigger] owned(
                slots,
                ssh_session_id,
                channel_id,
            )[i]).1.spec_channel() == (ssh_session_id, channel_id) && slots.contains(
                owned(slots, ssh_session_id, channel_id)[i],
            ),
        forall|i: int|
            0 <= i < not_owned(slots, ssh_session_id, channel_id).len() ==> (#[trigger] not_owned(
                slots,
                ssh_session_id,
                channel_id,
            )[i]).1.spec_channel() != (ssh_session_id, channel_id) && slots.contains(
                not_owned(slots, ssh_session_id, channel_id)[i],
            ),
        forall|i: int|
            0 <= i < slots.len() ==> if (#[trigger] slots[i]).1.spec_channel() == (
                ssh_session_id,
                channel_id,
            ) {
                owned(slots, ssh_session_id, channel_id).contains(slots[i])
            } else {
                not_owned(slots, ssh_session_id, channel_id).contains(slots[i])
            },
        distinct_ids(owned(slots, ssh_session_id, channel_id)),
        distinct_ids(not_owned(slots, ssh_session_id, channel_id)),
    decreases slots.len(),
{
    if slots.len() > 0 {
        let head = slots.drop_last();
        let last = slots.last();
        lemma_owned_partition(head, ssh_session_id, channel_id);
        let o = owned(slots, ssh_session_id, channel_id);
        let n = not_owned(slots, ssh_session_id, channel_id);
        let oh = owned(head, ssh_session_id, channel_id);
        let nh = not_owned(head, ssh_session_id, channel_id);
        let is_owner = last.1.spec_channel() == (ssh_session_id, channel_id);
        assert forall|i: int| 0 <= i < o.len() implies (#[trigger] o[i]).1.spec_channel() == (
            ssh_session_id,
            channel_id,
        ) && slots.contains(o[i]) by {
            if i < oh.len() {
                assert(o[i] == oh[i]);
                let k = choose|k: int| 0 <= k < head.len() && head[k] == oh[i];
                assert(slots[k] == o[i]);
            } else {
                assert(o[i] == last);
                assert(slots[slots.len() - 1] == last);
            }
        }
        assert forall|i: int| 0 <= i < n.len() implies (#[trigger] n[i]).1.spec_channel() != (
            ssh_session_id,
            channel_id,
        ) && slots.contains(n[i]) by {
            if i < nh.len() {
                assert(n[i] == nh[i]);
                let k = choose|k: int| 0 <= k < head.len() && head[k] == nh[i];
                assert(slots[k] == n[i]);
            } else {
                assert(n[i] == last);
                assert(slots[slots.len() - 1] == last);
            }
        }
        assert forall|i: int| 0 <= i < slots.len() implies if (#[trigger] slots[i]).1.spec_channel()
            == (ssh_session_id, channel_id) {
            o.contains(slots[i])
        } else {
            n.contains(slots[i])
        } by {
            if i < head.len() {
                assert(head[i] == slots[i]);
                if slots[i].1.spec_channel() == (ssh_session_id, channel_id) {
                    let k = choose|k: int| 0 <= k < oh.len() && oh[k] == head[i];
                    assert(o[k] == slots[i]);
                } else {
                    let k = choose|k: int| 0 <= k < nh.len() && nh[k] == head[i];
                    assert(n[k] == slots[i]);
                }
            } else {
                if is_owner {
                    assert(o[o.len() - 1] == slots[i]);
                } else {
                    assert(n[n.len() - 1] == slots[i]);
                }
            }
        }
        assert forall|i: int, j: int| 0 <= i < j < o.len() implies o[i].0 != o[j].0 by {
            if j < oh.len() {
                assert(oh[i].0 != oh[j].0);
            } else {
                assert(o[i] == oh[i]);
                let k = choose|k: int| 0 <= k < head.len() && head[k] == oh[i];
                assert(slots[k].0 != slots[slots.len() - 1].0);
            }
        }
        assert forall|i: int, j: int| 0 <= i < j < n.len() implies n[i].0 != n[j].0 by {
            if j < nh.len() {
                assert(nh[i].0 != nh[j].0);
            } else {
                assert(n[i] == nh[i]);
                let k = choose|k: int| 0 <= k < head.len() && head[k] == nh[i];
                assert(slots[k].0 != slots[slots.len() - 1].0);
            }
        }
    }
}

/// No two slots consume the events of the same channel of the same session.
pub open spec fn single_owner<E: ChannelOwner>(slots: Seq<(u128, E)>) -> bool {
    forall|i: int, j: int|
        0 <= i < j < slots.len() ==> slots[i].1.spec_channel() != slots[j].1.spec_channel()
}

/// Where no channel has two owners, an event has at most one consumer.
pub proof fn lemma_single_owner<E: ChannelOwner>(
    slots: Seq<(u128, E)>,
    ssh_session_id: SSHSessionId,
    channel_id: u32,
)
    requires
        single_owner(slots),
    ensures
        owned(slots, ssh_session_id, channel_id).len() <= 1,
        owned(slots, ssh_session_id, channel_id).len() == 1 ==> exists|i: int|
            0 <= i < slots.len() && slots[i] == owned(slots, ssh_session_id, channel_id)[0],
    decreases slots.len(),
{
    if slots.len() > 0 {
        let head = slots.drop_last();
        let last = slots.last();
        assert forall|i: int, j: int| 0 <= i < j < head.len() implies head[i].1.spec_channel()
            != head[j].1.spec_channel() by {
            assert(slots[i].1.spec_channel() != slots[j].1.spec_channel());
        }
        lemma_single_owner(head, ssh_session_id, channel_id);
        let oh = owned(head, ssh_session_id, channel_id);
        if last.1.spec_channel() == (ssh_session_id, channel_id) {
            if oh.len() == 1 {
                let i = choose|i: int| 0 <= i < head.len() && head[i] == oh[0];
                lemma_owned_holds(head, ssh_session_id, channel_id, 0);
                assert(slots[i].1.spec_channel() != slots[slots.len() - 1].1.spec_channel());
            }
            assert(slots[slots.len() - 1] == owned(slots, ssh_session_id, channel_id)[0]);
        } else if oh.len() == 1 {
            let i = choose|i: int| 0 <= i < head.len() && head[i] == oh[0];
            assert(slots[i] == owned(slots, ssh_session_id, channel_id)[0]);
        }
    }
}

/// No slot but that of `id` consumes the events of the channel.
pub open spec fn unowned_by_others<E: ChannelOwner>(
    slots: Seq<(u128, E)>,
    id: u128,
    channel: (SSHSessionId, u32),
) -> bool {
    forall|i: int|
        0 <= i < slots.len() && slots[i].0 != id ==> (#[trigger] slots[i]).1.spec_channel()
            != channel
}

/// Registering an entry on a channel that no other entry owns keeps every
/// channel with at most one owner.
pub proof fn lemma_put_keeps_single_owner<E: ChannelOwner>(
    slots: Seq<(u128, E)>,
    id: u128,
    entry: E,
)
    requires
        distinct_ids(slots),
        single_owner(slots),
        unowned_by_others(slots, id, entry.spec_channel()),
    ensures
        single_owner(put(slots, id, entry)),
{
    let t = put(slots, id, entry);
    let k: int = if has_id(slots, id) {
        position(slots, id)
    } else {
        slots.len() as int
    };
    if has_id(slots, id) {
        assert(0 <= k < slots.len() && slots[k].0 == id);
    }
    assert forall|i: int| 0 <= i < t.len() && i != k implies t[i] == slots[i] && slots[i].0
        != id by {
        if has_id(slots, id) {
            if i < k {
                assert(slots[i].0 != slots[k].0);
            } else {
                assert(slots[k].0 != slots[i].0);
            }
        } else {
            assert(slots[i].0 != id);
        }
    }
    assert forall|i: int, j: int| 0 <= i < j < t.len() implies t[i].1.spec_channel()
        != t[j].1.spec_channel() by {
        if i == k {
            assert(t[j] == slots[j] && slots[j].0 != id);
        } else if j == k {
            assert(t[i] == slots[i] && slots[i].0 != id);
        } else {
            assert(t[i] == slots[i] && t[j] == slots[j]);
            assert(slots[i].1.spec_channel() != slots[j].1.spec_channel());
        }
    }
}

/// Taking an entry out keeps every channel with at most one owner.
pub proof fn lemma_without_keeps_single_owner<E: ChannelOwner>(slots: Seq<(u128, E)>, id: u128)
    requires
        single_owner(slots),
    ensures
        single_owner(without(slots, id)),
{
    let t = without(slots, id);
    if has_id(slots, id) {
        let k = position(slots, id);
        assert(0 <= k < slots.len() && slots[k].0 == id);
        assert forall|i: int, j: int| 0 <= i < j < t.len() implies t[i].1.spec_channel()
            != t[j].1.spec_channel() by {
            let a = if i < k { i } else { i + 1 };
            let b = if j < k { j } else { j + 1 };
            assert(t[i] == slots[a] && t[j] == slots[b]);
            assert(slots[a].1.spec_channel() != slots[b].1.spec_channel());
        }
    }
}

/// Every slot that is left when the owners of a channel are taken out was
/// a slot before.
pub proof fn lemma_not_owned_was_held<E: ChannelOwner>(
    slots: Seq<(u128, E)>,
    ssh_session_id: SSHSessionId,
    channel_id: u32,
    i: int,
)
    requires
        0 <= i < not_owned(slots, ssh_session_id, channel_id).len(),
    ensures
        exists|k: int|
            0 <= k < slots.len() && slots[k] == not_owned(slots, ssh_session_id, channel_id)[i],
    decreases slots.len(),
{
    if slots.len() > 0 {
        let head = slots.drop_last();
        let nh = not_owned(head, ssh_session_id, channel_id);
        if i < nh.len() {
            lemma_not_owned_was_held(head, ssh_session_id, channel_id, i);
            let k = choose|k: int| 0 <= k < head.len() && head[k] == nh[i];
            assert(slots[k] == not_owned(slots, ssh_session_id, channel_id)[i]);
        } else {
            assert(slots[slots.len() - 1] == not_owned(slots, ssh_session_id, channel_id)[i]);
        }
    }
}

/// Taking the owners of a channel out keeps every channel with at most one
/// owner.
pub proof fn lemma_not_owned_keeps_single_owner<E: ChannelOwner>(
    slots: Seq<(u128, E)>,
    ssh_session_id: SSHSessionId,
    channel_id: u32,
)
    requires
        single_owner(slots),
    ensures
        single_owner(not_owned(slots, ssh_session_id, channel_id)),
    decreases slots.len(),
{
    if slots.len() > 0 {
        let head = slots.drop_last();
        let last = slots.last();
        assert forall|i: int, j: int| 0 <= i < j < head.len() implies head[i].1.spec_channel()
            != head[j].1.spec_channel() by {
            assert(slots[i].1.spec_channel() != slots[j].1.spec_channel());
        }
        lemma_not_owned_keeps_single_owner(head, ssh_session_id, channel_id);
        let n = not_owned(slots, ssh_session_id, channel_id);
        let nh = not_owned(head, ssh_session_id, channel_id);
        assert forall|i: int, j: int| 0 <= i < j < n.len() implies n[i].1.spec_channel()
            != n[j].1.spec_channel() by {
            if j < nh.len() {
                assert(nh[i].1.spec_channel() != nh[j].1.spec_channel());
            } else {
                lemma_not_owned_was_held(head, ssh_session_id, channel_id, i);
                let k = choose|k: int| 0 <= k < head.len() && head[k] == nh[i];
                assert(slots[k].1.spec_channel() != slots[slots.len() - 1].1.spec_channel());
            }
        }
    }
}

/// Every slot among the owners of a channel consumes that channel's events.
pub proof fn lemma_owned_holds<E: ChannelOwner>(
    slots: Seq<(u128, E)>,
    ssh_session_id: SSHSessionId,
    channel_id: u32,
    i: int,
)
    requires
        0 <= i < owned(slots, ssh_session_id, channel_id).len(),
    ensures
        owned(slots, ssh_session_id, channel_id)[i].1.spec_channel() == (
            ssh_session_id,
            channel_id,
        ),
    decreases slots.len(),
{
    if slots.len() > 0 {
        let head = slots.drop_last();
        if i < owned(head, ssh_session_id, channel_id).len() {
            lemma_owned_holds(head, ssh_session_id, channel_id, i);
        }
    }
}

/// The entries of the registry that consume the events of the channel, in
/// the registry's order.
pub fn owners<'a, E: ChannelOwner>(
    registry: &'a Registry<E>,
    ssh_session_id: SSHSessionId,
    channel_id: u32,
) -> (found: Vec<&'a E>)
    ensures
        found@.len() == owned(registry@, ssh_session_id, channel_id).len(),
        forall|i: int|
            0 <= i < found@.len() ==> *found@[i] == owned(registry@, ssh_session_id, channel_id)[i].1,
{
    let mut found: Vec<&'a E> = Vec::new();
    let n = registry.len();
    let mut i: usize = 0;
    proof {
        assert(registry@.take(0) =~= Seq::<(u128, E)>::empty());
    }
    while i < n
        invariant
            n == registry@.len(),
            i <= n,
            found@.len() == owned(registry@.take(i as int), ssh_session_id, channel_id).len(),
            forall|j: int|
                0 <= j < found@.len() ==> *found@[j] == owned(
                    registry@.take(i as int),
                    ssh_session_id,
                    channel_id,
                )[j].1,
        decreases n - i,
    {
        let entry = registry.entry_at(i);
        let owner = entry.channel();
        proof {
            let upto = registry@.take(i as int + 1);
            assert(upto.drop_last() =~= registry@.take(i as int));
            assert(upto.last() == registry@[i as int]);
        }
        if owner.0 == ssh_session_id && owner.1 == channel_id {
            found.push(entry);
        }
        i += 1;
    }
    proof {
        assert(registry@.take(n as int) =~= registry@);
    }
    found
}

/// Takes out of the registry the entries that consume the events of the
/// channel, and hands them back in the registry's order. The other entries
/// stay, in their order.
pub fn take_owners<E: ChannelOwner>(
    registry: &mut Registry<E>,
    ssh_session_id: SSHSessionId,
    channel_id: u32,
) -> (taken: Vec<(u128, E)>)
    ensures
        taken@ == owned(old(registry)@, ssh_session_id, channel_id),
        final(registry)@ == not_owned(old(registry)@, ssh_session_id, channel_id),
        distinct_ids(final(registry)@),
        single_owner(old(registry)@) ==> single_owner(final(registry)@),
{
    let mut taken: Vec<(u128, E)> = Vec::new();
    let ghost before = registry@;
    let ghost mut done: int = 0;
    let mut i: usize = 0;
    proof {
        assert(before.take(0) =~= Seq::<(u128, E)>::empty());
        assert(before.skip(0) =~= before);
    }
    while i < registry.len()
        invariant
            0 <= done <= before.len(),
            taken@ == owned(before.take(done), ssh_session_id, channel_id),
            i == not_owned(before.take(done), ssh_session_id, channel_id).len(),
            registry@ == not_owned(before.take(done), ssh_session_id, channel_id) + before.skip(
                done,
            ),
        decreases before.len() - done,
    {
        proof {
            assert(registry@.len() == i + before.skip(done).len());
            assert(done < before.len());
            assert(registry@[i as int] == before.skip(done)[0]);
            let upto = before.take(done + 1);
            assert(upto.drop_last() =~= before.take(done));
            assert(upto.last() == before[done]);
        }
        let owner = registry.entry_at(i).channel();
        if owner.0 == ssh_session_id && owner.1 == channel_id {
            let slot = registry.remove_at(i);
            taken.push(slot);
            proof {
                assert(registry@ =~= not_owned(before.take(done + 1), ssh_session_id, channel_id)
                    + before.skip(done + 1));
                done = done + 1;
            }
        } else {
            proof {
                assert(registry@ =~= not_owned(before.take(done + 1), ssh_session_id, channel_id)
                    + before.skip(done + 1));
                done = done + 1;
            }
            i += 1;
        }
    }
    proof {
        assert(done == before.len());
        assert(before.take(done) =~= before);
        assert(before.skip(done) =~= Seq::<(u128, E)>::empty());
        assert(registry@ =~= not_owned(before, ssh_session_id, channel_id));
        if single_owner(before) {
            lemma_not_owned_keeps_single_owner(before, ssh_session_id, channel_id);
        }
    }
    registry.ids_are_distinct();
    taken
}

} // verus!
