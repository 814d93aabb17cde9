//! Heartbeat bookkeeping: the last reported live time of each connection,
//! grouped into shards.

use std::collections::HashMap;
use vstd::prelude::*;

use crate::protocol::MQTTProtocol;

verus! {

broadcast use vstd::std_specs::hash::group_hash_axioms;

/// What a connection last reported about its liveness.
#[derive(Clone, Copy, Debug, PartialEq, Eq, Structural)]
pub struct ConnectionLiveTime {
    pub protobol: MQTTProtocol,
    pub keep_live: u16,
    pub heartbeat: u128,
}

/// One shard: live times by connection id.
#[derive(Clone)]
pub struct HeartbeatShard {
    pub heartbeat_data: HashMap<u64, ConnectionLiveTime>,
}

impl View for HeartbeatShard {
    type V = Map<u64, ConnectionLiveTime>;

    open spec fn view(&self) -> Map<u64, ConnectionLiveTime> {
        self.heartbeat_data@
    }
}

/// A shard after `connect_id` reported `live_time`.
pub open spec fn shard_after_report(
    shard: Map<u64, ConnectionLiveTime>,
    connect_id: u64,
    live_time: ConnectionLiveTime,
) -> Map<u64, ConnectionLiveTime> {
    shard.insert(connect_id, live_time)
}

/// A shard after `connect_id` was removed.
pub open spec fn shard_after_remove(
    shard: Map<u64, ConnectionLiveTime>,
    connect_id: u64,
) -> Map<u64, ConnectionLiveTime> {
    shard.remove(connect_id)
}

impl HeartbeatShard {
    pub fn new() -> (shard: Self)
        ensures
            shard@ == Map::<u64, ConnectionLiveTime>::empty(),
    {
        HeartbeatShard { heartbeat_data: HashMap::new() }
    }

    pub fn report_hearbeat(&mut self, connect_id: u64, live_time: ConnectionLiveTime)
        ensures
            final(self)@ == shard_after_report(old(self)@, connect_id, live_time),
    {
        self.heartbeat_data.insert(connect_id, live_time);
    }

    pub fn remove_connect(&mut self, connect_id: u64)
        ensures
            final(self)@ == shard_after_remove(old(self)@, connect_id),
    {
        self.heartbeat_data.remove(&connect_id);
    }
}

/// The manager's view: each slot's shard, by slot key.
pub open spec fn shards_view(data: Map<u64, HeartbeatShard>) -> Map<u64, Map<u64, ConnectionLiveTime>> {
    data.map_values(|shard: HeartbeatShard| shard@)
}

/// The shard found under `key`, or an empty one where there is none.
pub open spec fn shard_or_empty(
    m: Map<u64, Map<u64, ConnectionLiveTime>>,
    key: u64,
) -> Map<u64, ConnectionLiveTime> {
    if m.contains_key(key) {
        m[key]
    } else {
        Map::empty()
    }
}

/// The manager after `connect_id` reported `live_time` with `shard_num` shards:
/// the shard at slot `connect_id % shard_num` is taken out, the report is
/// recorded in it (or in a fresh shard where the slot was empty), and the
/// shard is stored back under `connect_id`.
pub open spec fn manager_after_report(
    m: Map<u64, Map<u64, ConnectionLiveTime>>,
    shard_num: u64,
    connect_id: u64,
    live_time: ConnectionLiveTime,
) -> Map<u64, Map<u64, ConnectionLiveTime>>
    recommends
        shard_num > 0,
{
    let slot = (connect_id % shard_num) as u64;
    m.remove(slot).insert(connect_id, shard_after_report(shard_or_empty(m, slot), connect_id, live_time))
}

/// The manager after `connect_id` was removed with `shard_num` shards: where
/// slot `connect_id % shard_num` holds a shard, it is taken out, the connection
/// is removed from it and the shard is stored back under `connect_id`;
/// otherwise nothing changes.
pub open spec fn manager_after_remove(
    m: Map<u64, Map<u64, ConnectionLiveTime>>,
    shard_num: u64,
    connect_id: u64,
) -> Map<u64, Map<u64, ConnectionLiveTime>>
    recommends
        shard_num > 0,
{
    let slot = (connect_id % shard_num) as u64;
    if m.contains_key(slot) {
        m.remove(slot).insert(connect_id, shard_after_remove(m[slot], connect_id))
    } else {
        m
    }
}

/// Shards of connection live times, keyed by slot.
#[derive(Clone)]
pub struct HeartbeatManager {
    shard_num: u64,
    pub heartbeat_data: HashMap<u64, HeartbeatShard>,
}

impl View for HeartbeatManager {
    type V = Map<u64, Map<u64, ConnectionLiveTime>>;

    closed spec fn view(&self) -> Map<u64, Map<u64, ConnectionLiveTime>> {
        shards_view(self.heartbeat_data@)
    }
}

impl HeartbeatManager {
    /// The number of shards the manager was made with.
    pub closed spec fn shard_count(&self) -> u64 {
        self.shard_num
    }

    pub fn new(shard_num: u64) -> (manager: Self)
        ensures
            manager.shard_count() == shard_num,
            manager@ == Map::<u64, Map<u64, ConnectionLiveTime>>::empty(),
    {
        let manager = HeartbeatManager { shard_num, heartbeat_data: HashMap::new() };
        assert(manager@ =~= Map::<u64, Map<u64, ConnectionLiveTime>>::empty());
        manager
    }

    /// The number of shards the manager was made with.
    pub fn shard_num(&self) -> (n: u64)
        ensures
            n == self.shard_count(),
    {
        self.shard_num
    }

    pub fn report_hearbeat(&mut self, connect_id: u64, live_time: ConnectionLiveTime)
        requires
            old(self).shard_count() > 0,
        ensures
            final(self).shard_count() == old(self).shard_count(),
            final(self)@ == manager_after_report(old(self)@, old(self).shard_count(), connect_id, live_time),
    {
        let hash_num = self.calc_shard_hash_num(connect_id);
        let ghost old_data = self.heartbeat_data@;
        if let Some(mut row) = self.heartbeat_data.remove(&hash_num) {
            row.report_hearbeat(connect_id, live_time);
            self.heartbeat_data.insert(connect_id, row);
            assert(self@ =~= manager_after_report(shards_view(old_data), self.shard_num, connect_id, live_time));
        } else {
            let mut row = HeartbeatShard::new();
            row.report_hearbeat(connect_id, live_time);
            self.heartbeat_data.insert(connect_id, row);
            assert(self@ =~= manager_after_report(shards_view(old_data), self.shard_num, connect_id, live_time));
        }
    }

    pub fn remove_connect(&mut self, connect_id: u64)
        requires
            old(self).shard_count() > 0,
        ensures
            final(self).shard_count() == old(self).shard_count(),
            final(self)@ == manager_after_remove(old(self)@, old(self).shard_count(), connect_id),
    {
        let hash_num = self.calc_shard_hash_num(connect_id);
        let ghost old_data = self.heartbeat_data@;
        if let Some(mut row) = self.heartbeat_data.remove(&hash_num) {
            row.remove_connect(connect_id);
            self.heartbeat_data.insert(connect_id, row);
            assert(self@ =~= manager_after_remove(shards_view(old_data), self.shard_num, connect_id));
        } else {
            assert(self@ =~= manager_after_remove(shards_view(old_data), self.shard_num, connect_id));
        }
    }

    pub fn calc_shard_hash_num(&self, connect_id: u64) -> (slot: u64)
        requires
            self.shard_count() > 0,
        ensures
            slot == connect_id % self.shard_count(),
            slot < self.shard_count(),
    {
        connect_id % self.shard_num
    }
}

/// A report is read back: after `connect_id` reports `live_time`, the shard
/// stored under `connect_id` maps `connect_id` to `live_time`.
pub proof fn law_report_is_read_back(
    m: Map<u64, Map<u64, ConnectionLiveTime>>,
    shard_num: u64,
    connect_id: u64,
    live_time: ConnectionLiveTime,
)
    requires
        shard_num > 0,
    ensures
        manager_after_report(m, shard_num, connect_id, live_time).contains_key(connect_id),
        manager_after_report(m, shard_num, connect_id, live_time)[connect_id].contains_key(connect_id),
        manager_after_report(m, shard_num, connect_id, live_time)[connect_id][connect_id] == live_time,
{
}

/// A report or a removal touches no key but the connection's slot and the
/// connection id itself.
pub proof fn law_other_keys_untouched(
    m: Map<u64, Map<u64, ConnectionLiveTime>>,
    shard_num: u64,
    connect_id: u64,
    live_time: ConnectionLiveTime,
    other: u64,
)
    requires
        shard_num > 0,
        other != connect_id,
        other != connect_id % shard_num,
    ensures
        manager_after_report(m, shard_num, connect_id, live_time).contains_key(other) == m.contains_key(other),
        manager_after_report(m, shard_num, connect_id, live_time)[other] == m[other],
        manager_after_remove(m, shard_num, connect_id).contains_key(other) == m.contains_key(other),
        manager_after_remove(m, shard_num, connect_id)[other] == m[other],
{
}

/// Once a connection is removed while its slot holds a shard, the shard
/// stored under the connection id no longer holds the connection.
pub proof fn law_removed_connection_is_gone(
    m: Map<u64, Map<u64, ConnectionLiveTime>>,
    shard_num: u64,
    connect_id: u64,
)
    requires
        shard_num > 0,
        m.contains_key((connect_id % shard_num) as u64),
    ensures
        manager_after_remove(m, shard_num, connect_id).contains_key(connect_id),
        !manager_after_remove(m, shard_num, connect_id)[connect_id].contains_key(connect_id),
{
}

/// Removing a connection forgets no other connection: where the
/// connection's slot holds a shard, the shard stored under the connection id
/// afterwards maps every other connection exactly as the slot's shard did.
pub proof fn law_remove_keeps_other_connections(
    m: Map<u64, Map<u64, ConnectionLiveTime>>,
    shard_num: u64,
    connect_id: u64,
    other: u64,
)
    requires
        shard_num > 0,
        m.contains_key((connect_id % shard_num) as u64),
        other != connect_id,
    ensures
        manager_after_remove(m, shard_num, connect_id)[connect_id].contains_key(other)
            == m[(connect_id % shard_num) as u64].contains_key(other),
        manager_after_remove(m, shard_num, connect_id)[connect_id][other]
            == m[(connect_id % shard_num) as u64][other],
{
}

/// A report forgets no other connection: the shard stored under the
/// connection id afterwards maps every other connection exactly as the
/// connection's slot did before (nothing, where the slot held no shard).
pub proof fn law_report_keeps_other_connections(
    m: Map<u64, Map<u64, ConnectionLiveTime>>,
    shard_num: u64,
    connect_id: u64,
    live_time: ConnectionLiveTime,
    other: u64,
)
    requires
        shard_num > 0,
        other != connect_id,
    ensures
        manager_after_report(m, shard_num, connect_id, live_time)[connect_id].contains_key(other)
            == (m.contains_key((connect_id % shard_num) as u64) && m[(connect_id % shard_num) as u64].contains_key(other)),
        m.contains_key((connect_id % shard_num) as u64) ==>
            manager_after_report(m, shard_num, connect_id, live_time)[connect_id][other]
                == m[(connect_id % shard_num) as u64][other],
{
}

/// In a shard, a report is read back and a removal forgets the connection,
/// and neither touches any other connection.
pub proof fn law_shard_report_and_remove(
    shard: Map<u64, ConnectionLiveTime>,
    connect_id: u64,
    live_time: ConnectionLiveTime,
    other: u64,
)
    requires
        other != connect_id,
    ensures
        shard_after_report(shard, connect_id, live_time).contains_key(connect_id),
        shard_after_report(shard, connect_id, live_time)[connect_id] == live_time,
        !shard_after_remove(shard, connect_id).contains_key(connect_id),
        shard_after_report(shard, connect_id, live_time).contains_key(other) == shard.contains_key(other),
        shard_after_report(shard, connect_id, live_time)[other] == shard[other],
        shard_after_remove(shard, connect_id).contains_key(other) == shard.contains_key(other),
        shard_after_remove(shard, connect_id)[other] == shard[other],
{
}

/// A report, and a removal whose slot holds a shard, take the shard out of
/// the connection's slot: where the slot differs from the connection id, the
/// slot is left empty.
pub proof fn law_slot_shard_moves_to_connection(
    m: Map<u64, Map<u64, ConnectionLiveTime>>,
    shard_num: u64,
    connect_id: u64,
    live_time: ConnectionLiveTime,
)
    requires
        shard_num > 0,
        (connect_id % shard_num) as u64 != connect_id,
    ensures
        !manager_after_report(m, shard_num, connect_id, live_time).contains_key((connect_id % shard_num) as u64),
        m.contains_key((connect_id % shard_num) as u64) ==> !manager_after_remove(m, shard_num, connect_id).contains_key(
            (connect_id % shard_num) as u64,
        ),
{
}

/// A removal of a connection whose slot holds no shard changes nothing.
pub proof fn law_remove_without_shard_is_noop(
    m: Map<u64, Map<u64, ConnectionLiveTime>>,
    shard_num: u64,
    connect_id: u64,
)
    requires
        shard_num > 0,
        !m.contains_key((connect_id % shard_num) as u64),
    ensures
        manager_after_remove(m, shard_num, connect_id) == m,
{
}

/// For a connection id below the shard count (its own slot) whose slot
/// already holds a shard, removing it right after a report leaves the
/// manager as removing it without the report. (Where the slot held no shard,
/// the report creates one, and the removal leaves it behind empty.)
pub proof fn law_remove_undoes_report(
    m: Map<u64, Map<u64, ConnectionLiveTime>>,
    shard_num: u64,
    connect_id: u64,
    live_time: ConnectionLiveTime,
)
    requires
        connect_id < shard_num,
        m.contains_key(connect_id),
    ensures
        manager_after_remove(manager_after_report(m, shard_num, connect_id, live_time), shard_num, connect_id)
            == manager_after_remove(m, shard_num, connect_id),
{
    assert(connect_id % shard_num == connect_id) by (nonlinear_arith)
        requires connect_id < shard_num;
    assert(shard_after_remove(shard_after_report(m[connect_id], connect_id, live_time), connect_id)
        =~= shard_after_remove(m[connect_id], connect_id));
    assert(manager_after_remove(manager_after_report(m, shard_num, connect_id, live_time), shard_num, connect_id)
        =~= manager_after_remove(m, shard_num, connect_id));
}

/// For every connection id below the shard count (its own slot), removing it
/// right after a report forgets the report: the slot holds the shard it held
/// before (an empty one where it held none) without the connection, and no
/// other slot changes.
pub proof fn law_report_then_remove_forgets(
    m: Map<u64, Map<u64, ConnectionLiveTime>>,
    shard_num: u64,
    connect_id: u64,
    live_time: ConnectionLiveTime,
    other: u64,
)
    requires
        connect_id < shard_num,
        other != connect_id,
    ensures
        manager_after_remove(manager_after_report(m, shard_num, connect_id, live_time), shard_num, connect_id)
            .contains_key(connect_id),
        manager_after_remove(manager_after_report(m, shard_num, connect_id, live_time), shard_num, connect_id)[connect_id]
            == shard_after_remove(shard_or_empty(m, connect_id), connect_id),
        manager_after_remove(manager_after_report(m, shard_num, connect_id, live_time), shard_num, connect_id)
            .contains_key(other) == m.contains_key(other),
        manager_after_remove(manager_after_report(m, shard_num, connect_id, live_time), shard_num, connect_id)[other]
            == m[other],
{
    assert(connect_id % shard_num == connect_id) by (nonlinear_arith)
        requires connect_id < shard_num;
    assert(shard_after_remove(shard_after_report(shard_or_empty(m, connect_id), connect_id, live_time), connect_id)
        =~= shard_after_remove(shard_or_empty(m, connect_id), connect_id));
}

/// In a shard, removing a connection right after it reported leaves the
/// shard as removing it without the report.
pub proof fn law_shard_remove_undoes_report(
    shard: Map<u64, ConnectionLiveTime>,
    connect_id: u64,
    live_time: ConnectionLiveTime,
)
    ensures
        shard_after_remove(shard_after_report(shard, connect_id, live_time), connect_id)
            == shard_after_remove(shard, connect_id),
{
    assert(shard_after_remove(shard_after_report(shard, connect_id, live_time), connect_id)
        =~= shard_after_remove(shard, connect_id));
}

/// In a shard, the last report of a connection wins.
pub proof fn law_shard_last_report_wins(
    shard: Map<u64, ConnectionLiveTime>,
    connect_id: u64,
    first: ConnectionLiveTime,
    second: ConnectionLiveTime,
)
    ensures
        shard_after_report(shard_after_report(shard, connect_id, first), connect_id, second)
            == shard_after_report(shard, connect_id, second),
{
    assert(shard_after_report(shard_after_report(shard, connect_id, first), connect_id, second)
        =~= shard_after_report(shard, connect_id, second));
}

} // verus!
