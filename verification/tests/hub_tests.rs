use water_plant_twin::hub::BroadcastHub;
use water_plant_twin::plant::{DeviceState, Plant, PlantState};

fn snapshot_with_temperature(temperature: i64) -> PlantState {
    let mut plant = Plant::new();
    plant.boiler_1.temperature = temperature;
    plant.get_state()
}

fn first_temperature(state: &PlantState) -> i64 {
    match &state.devices[0] {
        DeviceState::Boiler(b) => b.temperature,
        _ => panic!("first entry is not a boiler"),
    }
}

#[test]
fn subscriber_sees_only_what_is_published_after_it_subscribes() {
    let mut hub = BroadcastHub::new(16);
    hub.publish(snapshot_with_temperature(1_000));
    hub.publish(snapshot_with_temperature(2_000));
    let mut subscriber = hub.subscribe();
    // Nothing yet: both snapshots predate the subscription.
    assert!(hub.recv(&mut subscriber).is_none());
    hub.publish(snapshot_with_temperature(3_000));
    let received = hub.recv(&mut subscriber).expect("one snapshot is owed");
    assert_eq!(first_temperature(&received), 3_000);
    assert!(hub.recv(&mut subscriber).is_none());
}

#[test]
fn fast_subscriber_receives_every_snapshot_in_order() {
    let mut hub = BroadcastHub::new(2);
    let mut subscriber = hub.subscribe();
    for temperature in [1_000i64, 2_000, 3_000, 4_000, 5_000] {
        hub.publish(snapshot_with_temperature(temperature));
        let received = hub.recv(&mut subscriber).expect("just published");
        assert_eq!(first_temperature(&received), temperature);
    }
}

#[test]
fn slow_subscriber_loses_the_oldest_and_keeps_the_most_recent() {
    let mut hub = BroadcastHub::new(2);
    let mut slow = hub.subscribe();
    let mut fast = hub.subscribe();
    for temperature in [1_000i64, 2_000, 3_000, 4_000, 5_000] {
        hub.publish(snapshot_with_temperature(temperature));
        let received = hub.recv(&mut fast).expect("just published");
        assert_eq!(first_temperature(&received), temperature);
    }
    // The slow subscriber never drained: with capacity 2 and 5 published,
    // snapshots 1..3 are gone, 4 and 5 are served.
    let received = hub.recv(&mut slow).expect("retained snapshots remain");
    assert_eq!(first_temperature(&received), 4_000);
    let received = hub.recv(&mut slow).expect("one more retained");
    assert_eq!(first_temperature(&received), 5_000);
    assert!(hub.recv(&mut slow).is_none());
}

#[test]
fn publisher_never_blocks_on_a_lagging_subscriber() {
    let mut hub = BroadcastHub::new(1);
    let mut lagging = hub.subscribe();
    for temperature in 0..100i64 {
        hub.publish(snapshot_with_temperature(temperature * 1_000));
    }
    // Only the single most recent snapshot is retained for the laggard.
    let received = hub.recv(&mut lagging).expect("the newest is retained");
    assert_eq!(first_temperature(&received), 99_000);
    assert!(hub.recv(&mut lagging).is_none());
}
