use mqtt_broker::heartbeat::{ConnectionLiveTime, HeartbeatManager, HeartbeatShard};
use mqtt_broker::protocol::MQTTProtocol;

fn live(keep_live: u16, heartbeat: u128) -> ConnectionLiveTime {
    ConnectionLiveTime { protobol: MQTTProtocol::MQTT5, keep_live, heartbeat }
}

#[test]
fn shard_report_and_remove() {
    let mut shard = HeartbeatShard::new();
    assert!(shard.heartbeat_data.is_empty());
    shard.report_hearbeat(7, live(30, 100));
    assert_eq!(shard.heartbeat_data.get(&7), Some(&live(30, 100)));
    shard.report_hearbeat(7, live(60, 200));
    assert_eq!(shard.heartbeat_data.len(), 1);
    assert_eq!(shard.heartbeat_data.get(&7), Some(&live(60, 200)));
    shard.remove_connect(7);
    assert!(shard.heartbeat_data.is_empty());
    shard.remove_connect(8);
    assert!(shard.heartbeat_data.is_empty());
}

#[test]
fn shard_remove_after_report_keeps_others() {
    let mut shard = HeartbeatShard::new();
    shard.report_hearbeat(1, live(10, 1));
    shard.report_hearbeat(2, live(20, 2));
    shard.remove_connect(1);
    assert_eq!(shard.heartbeat_data.len(), 1);
    assert_eq!(shard.heartbeat_data.get(&2), Some(&live(20, 2)));
}

#[test]
fn manager_calc_shard_hash_num() {
    let manager = HeartbeatManager::new(4);
    assert_eq!(manager.shard_num(), 4);
    assert_eq!(manager.calc_shard_hash_num(0), 0);
    assert_eq!(manager.calc_shard_hash_num(9), 1);
    assert_eq!(manager.calc_shard_hash_num(11), 3);
    assert_eq!(manager.calc_shard_hash_num(u64::MAX), 3);
}

#[test]
fn manager_report_is_read_back_under_connection_id() {
    let mut manager = HeartbeatManager::new(4);
    assert!(manager.heartbeat_data.is_empty());
    manager.report_hearbeat(9, live(30, 100));
    // the shard is stored under the connection id
    assert_eq!(manager.heartbeat_data.len(), 1);
    let shard = manager.heartbeat_data.get(&9).unwrap();
    assert_eq!(shard.heartbeat_data.get(&9), Some(&live(30, 100)));
}

#[test]
fn manager_report_takes_the_slot_shard() {
    let mut manager = HeartbeatManager::new(4);
    // connection 1 lives in its own slot 1
    manager.report_hearbeat(1, live(10, 1));
    // connection 5 hashes to slot 1: that shard moves under key 5
    manager.report_hearbeat(5, live(50, 5));
    assert_eq!(manager.heartbeat_data.len(), 1);
    assert!(manager.heartbeat_data.get(&1).is_none());
    let shard = manager.heartbeat_data.get(&5).unwrap();
    assert_eq!(shard.heartbeat_data.len(), 2);
    assert_eq!(shard.heartbeat_data.get(&1), Some(&live(10, 1)));
    assert_eq!(shard.heartbeat_data.get(&5), Some(&live(50, 5)));
}

#[test]
fn manager_remove_connect() {
    let mut manager = HeartbeatManager::new(4);
    manager.report_hearbeat(2, live(10, 1));
    manager.report_hearbeat(3, live(20, 2));
    manager.remove_connect(2);
    assert_eq!(manager.heartbeat_data.len(), 2);
    assert!(manager.heartbeat_data.get(&2).unwrap().heartbeat_data.is_empty());
    assert_eq!(manager.heartbeat_data.get(&3).unwrap().heartbeat_data.get(&3), Some(&live(20, 2)));
}

#[test]
fn manager_remove_without_slot_shard_changes_nothing() {
    let mut manager = HeartbeatManager::new(4);
    manager.report_hearbeat(6, live(10, 1));
    // slot of 6 is 2, which holds nothing: nothing happens
    manager.remove_connect(6);
    assert_eq!(manager.heartbeat_data.len(), 1);
    assert_eq!(manager.heartbeat_data.get(&6).unwrap().heartbeat_data.get(&6), Some(&live(10, 1)));
}

#[test]
fn manager_remove_undoes_report_in_own_slot() {
    let mut a = HeartbeatManager::new(4);
    a.report_hearbeat(3, live(1, 1));
    let mut b = HeartbeatManager::new(4);
    b.report_hearbeat(3, live(1, 1));
    a.report_hearbeat(3, live(2, 2));
    a.remove_connect(3);
    b.remove_connect(3);
    assert_eq!(a.heartbeat_data.len(), b.heartbeat_data.len());
    assert!(a.heartbeat_data.get(&3).unwrap().heartbeat_data.is_empty());
    assert!(b.heartbeat_data.get(&3).unwrap().heartbeat_data.is_empty());
}

#[test]
fn protocol_levels() {
    assert_eq!(MQTTProtocol::MQTT3.level(), 3);
    assert_eq!(MQTTProtocol::MQTT4.level(), 4);
    assert_eq!(MQTTProtocol::MQTT5.level(), 5);
}

#[test]
fn manager_report_then_remove_without_prior_shard_leaves_empty_shard() {
    let mut m = HeartbeatManager::new(4);
    m.report_hearbeat(1, live(5, 5));
    m.report_hearbeat(2, live(1, 1));
    m.remove_connect(2);
    assert_eq!(m.heartbeat_data.len(), 2);
    assert!(m.heartbeat_data.get(&2).unwrap().heartbeat_data.is_empty());
    assert_eq!(m.heartbeat_data.get(&1).unwrap().heartbeat_data.get(&1), Some(&live(5, 5)));
}
