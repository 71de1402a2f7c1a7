//! Layout of the keys that a group's leader reads and writes.

use vstd::prelude::*;
use vstd::string::StringSliceAdditionalSpecFns;

verus! {

pub open spec fn consumer_group_root() -> Seq<u8> {
    "v1/consumer-groups/".spec_bytes()
}

pub open spec fn leader_log_suffix() -> Seq<u8> {
    "/leader-state-log".spec_bytes()
}

pub open spec fn instance_lock_suffix() -> Seq<u8> {
    "/instance-locks/".spec_bytes()
}

pub open spec fn producer_lock_root() -> Seq<u8> {
    "v1/producer-locks/".spec_bytes()
}

fn append_bytes(dst: &mut Vec<u8>, src: &[u8])
    ensures
        final(dst)@ == old(dst)@ + src@,
{
    let mut i: usize = 0;
    while i < src.len()
        invariant
            i <= src@.len(),
            dst@ == old(dst)@ + src@.subrange(0, i as int),
        decreases src@.len() - i,
    {
        dst.push(src[i]);
        i = i + 1;
        assert(dst@ =~= old(dst)@ + src@.subrange(0, i as int));
    }
    assert(src@.subrange(0, src@.len() as int) =~= src@);
}

/// The key of the group's persisted leader state.
pub fn leader_state_log_key(consumer_group_id: &Vec<u8>) -> (r: Vec<u8>)
    ensures
        r@ == consumer_group_root() + consumer_group_id@ + leader_log_suffix(),
{
    let mut r: Vec<u8> = Vec::new();
    append_bytes(&mut r, "v1/consumer-groups/".as_bytes());
    append_bytes(&mut r, consumer_group_id.as_slice());
    append_bytes(&mut r, "/leader-state-log".as_bytes());
    assert(r@ =~= consumer_group_root() + consumer_group_id@ + leader_log_suffix());
    r
}

/// The prefix under which each live instance of the group holds its lock.
pub fn instance_lock_prefix(consumer_group_id: &Vec<u8>) -> (r: Vec<u8>)
    ensures
        r@ == consumer_group_root() + consumer_group_id@ + instance_lock_suffix(),
{
    let mut r: Vec<u8> = Vec::new();
    append_bytes(&mut r, "v1/consumer-groups/".as_bytes());
    append_bytes(&mut r, consumer_group_id.as_slice());
    append_bytes(&mut r, "/instance-locks/".as_bytes());
    assert(r@ =~= consumer_group_root() + consumer_group_id@ + instance_lock_suffix());
    r
}

/// The liveness key of a producer: it exists while the producer is alive.
pub fn producer_lock_key(producer_id: crate::state::ProducerId) -> (r: Vec<u8>)
    ensures
        r@ == producer_lock_root().push(producer_id.id),
{
    let mut r: Vec<u8> = Vec::new();
    append_bytes(&mut r, "v1/producer-locks/".as_bytes());
    r.push(producer_id.id);
    r
}

/// The prefix under which every producer holds its liveness key.
pub fn producer_lock_prefix() -> (r: Vec<u8>)
    ensures
        r@ == producer_lock_root(),
{
    let mut r: Vec<u8> = Vec::new();
    append_bytes(&mut r, "v1/producer-locks/".as_bytes());
    r
}

/// The producer whose liveness key is `key`, if `key` is one.
pub fn producer_from_lock_key(key: &Vec<u8>) -> (r: Option<crate::state::ProducerId>)
    ensures
        match r {
            Some(p) => key@ == producer_lock_root().push(p.id),
            None => forall|id: u8| key@ != producer_lock_root().push(id),
        },
{
    let root = "v1/producer-locks/".as_bytes();
    if key.len() == 0 || key.len() - 1 != root.len() {
        return None;
    }
    let mut i: usize = 0;
    while i < root.len()
        invariant
            i <= root@.len(),
            key@.len() == root@.len() + 1,
            root@ == producer_lock_root(),
            forall|j: int| 0 <= j < i ==> key@[j] == root@[j],
        decreases root@.len() - i,
    {
        if key[i] != root[i] {
            assert forall|id: u8| key@ != producer_lock_root().push(id) by {
                assert(producer_lock_root().push(id)[i as int] == root@[i as int]);
            }
            return None;
        }
        i = i + 1;
    }
    let p = crate::state::ProducerId { id: key[root.len()] };
    assert(key@ =~= producer_lock_root().push(p.id));
    Some(p)
}

} // verus!
