//! The guards under which the state log is written, and a model of how the
//! store applies a guarded write.

use vstd::prelude::*;
use crate::bytes::copy_bytes;

verus! {

/// What a comparison of a transaction guard reads of a key.
#[derive(Clone, Copy, Debug, PartialEq, Eq, Structural)]
pub enum CompareTarget {
    /// How many times the key was written since it was created; 0 when absent.
    Version,
    /// The store revision of the key's last write; 0 when absent.
    ModRevision,
}

#[derive(Clone, Copy, Debug, PartialEq, Eq, Structural)]
pub enum CompareOp {
    Equal,
    Greater,
    Less,
}

/// One condition of a transaction guard: `target(key) op value`.
pub struct TxnCompare {
    pub key: Vec<u8>,
    pub target: CompareTarget,
    pub op: CompareOp,
    pub value: i64,
}

pub ghost struct CompareModel {
    pub key: Seq<u8>,
    pub target: CompareTarget,
    pub op: CompareOp,
    pub value: int,
}

impl View for TxnCompare {
    type V = CompareModel;

    open spec fn view(&self) -> CompareModel {
        CompareModel { key: self.key@, target: self.target, op: self.op, value: self.value as int }
    }
}

/// What the store keeps of a present key.
pub ghost struct KeyMeta {
    pub version: int,
    pub mod_revision: int,
}

/// The store as far as guarded writes see it: its current revision and the
/// metadata of each present key.
pub ghost struct StoreModel {
    pub revision: int,
    pub keys: Map<Seq<u8>, KeyMeta>,
}

pub open spec fn key_version(s: StoreModel, key: Seq<u8>) -> int {
    if s.keys.contains_key(key) {
        s.keys[key].version
    } else {
        0
    }
}

pub open spec fn key_mod_revision(s: StoreModel, key: Seq<u8>) -> int {
    if s.keys.contains_key(key) {
        s.keys[key].mod_revision
    } else {
        0
    }
}

pub open spec fn compare_holds(s: StoreModel, c: CompareModel) -> bool {
    let actual = match c.target {
        CompareTarget::Version => key_version(s, c.key),
        CompareTarget::ModRevision => key_mod_revision(s, c.key),
    };
    match c.op {
        CompareOp::Equal => actual == c.value,
        CompareOp::Greater => actual > c.value,
        CompareOp::Less => actual < c.value,
    }
}

pub open spec fn guard_holds(s: StoreModel, guard: Seq<CompareModel>) -> bool {
    forall|i: int| 0 <= i < guard.len() ==> compare_holds(s, #[trigger] guard[i])
}

/// The store after a write of `key` at the next revision.
pub open spec fn after_put(s: StoreModel, key: Seq<u8>) -> StoreModel {
    StoreModel {
        revision: s.revision + 1,
        keys: s.keys.insert(
            key,
            KeyMeta { version: key_version(s, key) + 1, mod_revision: s.revision + 1 },
        ),
    }
}

/// A transaction that writes `key` when `guard` holds: the store afterwards,
/// and the revision of the write if it happened.
pub open spec fn guarded_put(s: StoreModel, guard: Seq<CompareModel>, key: Seq<u8>) -> (
    StoreModel,
    Option<int>,
) {
    if guard_holds(s, guard) {
        (after_put(s, key), Some(s.revision + 1))
    } else {
        (s, None)
    }
}

pub open spec fn guard_view(g: Seq<TxnCompare>) -> Seq<CompareModel> {
    g.map_values(|c: TxnCompare| c@)
}

/// The leader still holds its lock: the lock key exists.
pub open spec fn still_leader(leader_key: Seq<u8>) -> CompareModel {
    CompareModel {
        key: leader_key,
        target: CompareTarget::Version,
        op: CompareOp::Greater,
        value: 0,
    }
}

pub open spec fn init_guard_spec(leader_key: Seq<u8>, log_key: Seq<u8>) -> Seq<CompareModel> {
    seq![
        still_leader(leader_key),
        CompareModel { key: log_key, target: CompareTarget::Version, op: CompareOp::Equal, value: 0 },
    ]
}

pub open spec fn persist_guard_spec(leader_key: Seq<u8>, log_key: Seq<u8>, last_revision: int) -> Seq<
    CompareModel,
> {
    seq![
        still_leader(leader_key),
        CompareModel {
            key: log_key,
            target: CompareTarget::ModRevision,
            op: CompareOp::Equal,
            value: last_revision,
        },
    ]
}

/// Guard of the first write of a group's state log: the writer still holds
/// the leader lock and no one has written the log yet.
pub fn init_guard(leader_key: &Vec<u8>, log_key: &Vec<u8>) -> (r: Vec<TxnCompare>)
    ensures
        guard_view(r@) == init_guard_spec(leader_key@, log_key@),
{
    let mut r: Vec<TxnCompare> = Vec::new();
    r.push(
        TxnCompare {
            key: copy_bytes(leader_key),
            target: CompareTarget::Version,
            op: CompareOp::Greater,
            value: 0,
        },
    );
    r.push(
        TxnCompare {
            key: copy_bytes(log_key),
            target: CompareTarget::Version,
            op: CompareOp::Equal,
            value: 0,
        },
    );
    assert(guard_view(r@) =~= init_guard_spec(leader_key@, log_key@));
    r
}

/// Guard of every later write of the state log: the writer still holds the
/// leader lock and the log is unchanged since it was last observed at
/// `last_revision`.
pub fn persist_guard(leader_key: &Vec<u8>, log_key: &Vec<u8>, last_revision: i64) -> (r: Vec<
    TxnCompare,
>)
    ensures
        guard_view(r@) == persist_guard_spec(leader_key@, log_key@, last_revision as int),
{
    let mut r: Vec<TxnCompare> = Vec::new();
    r.push(
        TxnCompare {
            key: copy_bytes(leader_key),
            target: CompareTarget::Version,
            op: CompareOp::Greater,
            value: 0,
        },
    );
    r.push(
        TxnCompare {
            key: copy_bytes(log_key),
            target: CompareTarget::ModRevision,
            op: CompareOp::Equal,
            value: last_revision,
        },
    );
    assert(guard_view(r@) =~= persist_guard_spec(leader_key@, log_key@, last_revision as int));
    r
}

/// Two initialisations of a fresh group, one after the other as the store
/// serialises them: the first writes at the next revision, the second finds
/// its guard false and writes nothing.
pub proof fn lemma_init_once(s: StoreModel, leader_key: Seq<u8>, log_key: Seq<u8>)
    requires
        key_version(s, leader_key) > 0,
        !s.keys.contains_key(log_key),
        leader_key != log_key,
    ensures
        ({
            let g = init_guard_spec(leader_key, log_key);
            let (s1, first) = guarded_put(s, g, log_key);
            let (s2, second) = guarded_put(s1, g, log_key);
            &&& first == Some(s.revision + 1)
            &&& second.is_none()
            &&& s2 == s1
        }),
{
    let g = init_guard_spec(leader_key, log_key);
    assert(compare_holds(s, g[0]));
    assert(compare_holds(s, g[1]));
    assert(guard_holds(s, g));
    let s1 = after_put(s, log_key);
    assert(key_version(s1, log_key) == 1);
    assert(!compare_holds(s1, g[1]));
}

/// Two leaders that last observed the log at the same revision cannot both
/// advance it: once one write lands, the other's guard is false.
pub proof fn lemma_persist_exclusive(
    s: StoreModel,
    leader_key: Seq<u8>,
    log_key: Seq<u8>,
    last_revision: int,
)
    requires
        s.revision >= last_revision,
    ensures
        ({
            let g = persist_guard_spec(leader_key, log_key, last_revision);
            let (s1, first) = guarded_put(s, g, log_key);
            first.is_some() ==> guarded_put(s1, g, log_key).1.is_none()
        }),
{
    let g = persist_guard_spec(leader_key, log_key, last_revision);
    if guard_holds(s, g) {
        let s1 = after_put(s, log_key);
        assert(key_mod_revision(s1, log_key) == s.revision + 1);
        assert(!compare_holds(s1, g[1]));
    }
}

} // verus!
