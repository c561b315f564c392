use kms_outputs::complete_snapshot;
use kms_outputs::connected_outputs;
use kms_outputs::enumerate_outputs;
use kms_outputs::sort_by_identifier;
use kms_outputs::ConnectionState;
use kms_outputs::ConnectorInfo;
use kms_outputs::DeviceId;
use kms_outputs::ModeInfo;
use kms_outputs::MonitorHandle;
use kms_outputs::QueryError;
use kms_outputs::WindowId;

fn mode(width: u16, height: u16, vrefresh: u32) -> ModeInfo {
    ModeInfo { width, height, vrefresh }
}

fn connected(id: u32, modes: Vec<ModeInfo>) -> ConnectorInfo {
    ConnectorInfo { interface_id: id, state: ConnectionState::Connected, modes }
}

fn disconnected(id: u32) -> ConnectorInfo {
    ConnectorInfo { interface_id: id, state: ConnectionState::Disconnected, modes: vec![] }
}

fn one_output(id: u32, modes: Vec<ModeInfo>) -> MonitorHandle {
    let mut outputs = connected_outputs(vec![connected(id, modes)]);
    assert_eq!(outputs.len(), 1);
    outputs.remove(0)
}

#[test]
fn two_connected_connectors_scenario() {
    let outputs = connected_outputs(vec![
        connected(5, vec![mode(1920, 1080, 60)]),
        connected(2, vec![mode(1280, 720, 60)]),
    ]);
    assert_eq!(outputs.len(), 2);
    let sorted = sort_by_identifier(outputs);
    assert_eq!(sorted[0].native_identifier(), 2);
    assert_eq!(sorted[1].native_identifier(), 5);
    let modes = sorted[0].video_modes();
    assert_eq!(modes.len(), 1);
    let size = modes[0].size();
    assert_eq!((size.width, size.height), (1280, 720));
    assert_eq!(modes[0].refresh_rate(), 60);
    assert_eq!(modes[0].bit_depth(), 32);
}

#[test]
fn disconnected_connectors_never_appear() {
    let outputs = connected_outputs(vec![
        disconnected(1),
        connected(4, vec![mode(800, 600, 60)]),
        disconnected(9),
        connected(6, vec![mode(640, 480, 60)]),
    ]);
    assert_eq!(outputs.len(), 2);
    assert_eq!(outputs[0].native_identifier(), 4);
    assert_eq!(outputs[1].native_identifier(), 6);
}

#[test]
fn unknown_state_is_not_connected() {
    let unknown = ConnectorInfo {
        interface_id: 3,
        state: ConnectionState::Unknown,
        modes: vec![mode(1024, 768, 60)],
    };
    let outputs = connected_outputs(vec![unknown]);
    assert!(outputs.is_empty());
}

#[test]
fn identifier_is_equality_proxy() {
    let snapshot = || {
        vec![connected(5, vec![mode(1920, 1080, 60)]), connected(2, vec![mode(1280, 720, 60)])]
    };
    let first = connected_outputs(snapshot());
    let second = connected_outputs(snapshot());
    assert!(first[0] == second[0]);
    assert!(first[1] == second[1]);
    assert!(first[0] != first[1]);
    assert_eq!(first[0].native_identifier() == second[0].native_identifier(), first[0] == second[0]);
    assert_eq!(first[0].native_identifier() == first[1].native_identifier(), first[0] == first[1]);
}

#[test]
fn ordering_follows_identifier() {
    let a = one_output(3, vec![mode(1920, 1080, 60)]);
    let b = one_output(7, vec![mode(1280, 720, 60)]);
    assert_eq!(a.partial_cmp(&b), Some(std::cmp::Ordering::Less));
    assert_eq!(b.partial_cmp(&a), Some(std::cmp::Ordering::Greater));
    assert!(a < b);
    let sorted_one_way = sort_by_identifier(vec![a.clone(), b.clone()]);
    let sorted_other_way = sort_by_identifier(vec![b, a]);
    assert_eq!(sorted_one_way[0].native_identifier(), 3);
    assert_eq!(sorted_other_way[0].native_identifier(), 3);
    assert_eq!(sorted_other_way[1].native_identifier(), 7);
}

#[test]
fn equal_identifiers_compare_equal_in_order() {
    let a = one_output(4, vec![mode(1920, 1080, 60)]);
    let b = one_output(4, vec![mode(1280, 720, 75)]);
    assert_eq!(a.partial_cmp(&b), Some(std::cmp::Ordering::Equal));
}

#[test]
fn video_modes_is_restartable() {
    let output = one_output(5, vec![mode(1920, 1080, 60), mode(1280, 720, 75)]);
    let first = output.video_modes();
    let second = output.video_modes();
    assert_eq!(first.len(), second.len());
    for (x, y) in first.iter().zip(second.iter()) {
        assert!(x == y);
    }
}

#[test]
fn video_modes_keep_kernel_order() {
    let listed = vec![mode(640, 480, 60), mode(1920, 1080, 60), mode(640, 480, 60)];
    let output = one_output(5, listed.clone());
    let modes = output.video_modes();
    assert_eq!(modes.len(), 3);
    for (vm, m) in modes.iter().zip(listed.iter()) {
        let size = vm.size();
        assert_eq!((size.width, size.height), (m.width as u32, m.height as u32));
    }
}

#[test]
fn monitor_round_trips() {
    let output = one_output(5, vec![mode(1920, 1080, 60)]);
    let modes = output.video_modes();
    let rebuilt = modes[0].monitor();
    assert_eq!(rebuilt.native_identifier(), output.native_identifier());
    assert!(rebuilt == output);
}

#[test]
fn monitor_survives_original_output() {
    let modes = {
        let output = one_output(8, vec![mode(800, 600, 60)]);
        output.video_modes()
    };
    let rebuilt = modes[0].monitor();
    assert_eq!(rebuilt.native_identifier(), 8);
    let size = rebuilt.size();
    assert_eq!((size.width, size.height), (800, 600));
}

#[test]
fn empty_mode_list_yields_no_size() {
    let output = one_output(6, vec![]);
    assert!(output.try_size().is_none());
}

#[test]
fn preferred_mode_gives_size() {
    let output = one_output(6, vec![mode(1920, 1080, 60), mode(1280, 720, 75)]);
    let size = output.size();
    assert_eq!((size.width, size.height), (1920, 1080));
    let checked = output.try_size().unwrap();
    assert_eq!((checked.width, checked.height), (1920, 1080));
}

#[test]
fn refresh_rate_truncates_to_sixteen_bits() {
    let output = one_output(5, vec![mode(1920, 1080, 70000)]);
    let modes = output.video_modes();
    assert_eq!(modes[0].refresh_rate(), (70000 % 0x10000) as u16);
}

#[test]
fn name_and_position_are_fixed() {
    let output = one_output(5, vec![mode(1920, 1080, 60)]);
    assert_eq!(output.name(), Some(String::from("card0")));
    let position = output.position();
    assert_eq!((position.x, position.y), (0, 0));
}

#[test]
fn snapshot_is_all_or_nothing() {
    let results = vec![
        Ok(connected(5, vec![mode(1920, 1080, 60)])),
        Err(QueryError { code: 19 }),
        Err(QueryError { code: 6 }),
    ];
    assert_eq!(complete_snapshot(results), Err(QueryError { code: 19 }));

    let all_ok = vec![Ok(connected(5, vec![mode(1920, 1080, 60)])), Ok(disconnected(2))];
    let snapshots = complete_snapshot(all_ok).unwrap();
    assert_eq!(snapshots.len(), 2);
    assert_eq!(snapshots[0].interface_id, 5);
    assert_eq!(snapshots[1].interface_id, 2);
}

#[test]
fn enumeration_propagates_first_error() {
    let results = vec![Ok(connected(5, vec![mode(1920, 1080, 60)])), Err(QueryError { code: 5 })];
    assert_eq!(enumerate_outputs(results), Err(QueryError { code: 5 }));
}

#[test]
fn enumeration_filters_after_full_snapshot() {
    let results = vec![
        Ok(disconnected(1)),
        Ok(connected(5, vec![mode(1920, 1080, 60)])),
        Ok(disconnected(9)),
    ];
    let outputs = enumerate_outputs(results).unwrap();
    assert_eq!(outputs.len(), 1);
    assert_eq!(outputs[0].native_identifier(), 5);
}

#[test]
fn sorting_keeps_duplicate_identifiers() {
    let outputs = connected_outputs(vec![
        connected(5, vec![mode(1920, 1080, 60)]),
        connected(2, vec![mode(1280, 720, 60)]),
        connected(5, vec![mode(1920, 1080, 60)]),
    ]);
    let sorted = sort_by_identifier(outputs);
    let ids: Vec<u32> = sorted.iter().map(|o| o.native_identifier()).collect();
    assert_eq!(ids, vec![2, 5, 5]);
}

#[test]
fn dummy_identities_are_always_equal() {
    assert_eq!(DeviceId::dummy(), DeviceId::dummy());
    assert_eq!(WindowId::dummy(), WindowId::dummy());
}
