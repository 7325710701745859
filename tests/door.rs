use signal_scuffle::collision::CollisionEvent;
use signal_scuffle::door::{handle_door_reached_events, update_doors_status, Door, DoorStatus, LevelCompletion};
use signal_scuffle::geometry::Vec2;
use signal_scuffle::wifi::{
    next_download_progress, update_access_points, update_download_progress, AccessPoint,
    DownloadProgress,
};

fn door(entity: u64, is_open: bool) -> Door {
    Door { entity, status: DoorStatus { is_open } }
}

fn started(a: u64, b: u64, sensor: bool) -> CollisionEvent {
    CollisionEvent::Started { a, b, sensor }
}

#[test]
fn doors_open_only_with_a_completed_download() {
    assert!(!update_doors_status(&vec![]).is_open);
    assert!(!update_doors_status(&vec![
        DownloadProgress::Disconnected,
        DownloadProgress::Downloading { progress: 1_999_999 },
        DownloadProgress::LosingConnection { time_before_disconnection: 1, progress: 5 },
    ])
    .is_open);
    assert!(update_doors_status(&vec![DownloadProgress::Disconnected, DownloadProgress::Completed]).is_open);
}

#[test]
fn doors_stay_open_once_completed() {
    let mut ps = vec![DownloadProgress::Downloading { progress: 1_900_000 }, DownloadProgress::Disconnected];
    let mut opened_at = None;
    for tick in 0..600 {
        let connected = [tick < 20 || tick % 7 == 0, tick % 2 == 0];
        for (p, c) in ps.iter_mut().zip(connected) {
            *p = next_download_progress(*p, c, 16_667);
        }
        let open = update_doors_status(&ps).is_open;
        match opened_at {
            None => {
                if open {
                    opened_at = Some(tick);
                }
            }
            Some(_) => assert!(open),
        }
    }
    assert_eq!(opened_at, Some(5));
}

#[test]
fn player_reaching_open_door_completes_level() {
    let players = vec![1];
    let doors = vec![door(2, true)];
    assert!(handle_door_reached_events(&vec![started(1, 2, true)], &players, &doors));
    assert!(handle_door_reached_events(&vec![started(2, 1, true)], &players, &doors));
}

#[test]
fn closed_door_or_other_pairs_do_nothing() {
    let players = vec![1];
    assert!(!handle_door_reached_events(&vec![started(1, 2, true)], &players, &vec![door(2, false)]));
    let doors = vec![door(2, true)];
    // not a sensor contact
    assert!(!handle_door_reached_events(&vec![started(1, 2, false)], &players, &doors));
    // stop events are ignored
    assert!(!handle_door_reached_events(
        &vec![CollisionEvent::Stopped { a: 1, b: 2, sensor: true }],
        &players,
        &doors
    ));
    // neither side is a player, or the other side is no door
    assert!(!handle_door_reached_events(&vec![started(3, 2, true)], &players, &doors));
    assert!(!handle_door_reached_events(&vec![started(1, 3, true)], &players, &doors));
    assert!(!handle_door_reached_events(&vec![], &players, &doors));
}

#[test]
fn later_event_in_batch_still_counts() {
    let players = vec![1];
    let doors = vec![door(2, true)];
    let events = vec![started(1, 5, true), CollisionEvent::Stopped { a: 1, b: 2, sensor: true }, started(2, 1, true)];
    assert!(handle_door_reached_events(&events, &players, &doors));
}

#[test]
fn one_client_at_an_access_point_opens_the_exit() {
    let aps = vec![AccessPoint { entity: 50, position: Vec2 { x: 2000, y: -3000 } }];
    let mut progress = DownloadProgress::Disconnected;
    let mut elapsed: u64 = 0;
    while elapsed < 2_500_000 {
        let client = update_access_points(Vec2 { x: 2000, y: -3000 }, &aps);
        assert_eq!(client.access_point, Some(50));
        assert_eq!(client.distance_sq, 0);
        progress = update_download_progress(progress, &client, 16_667);
        elapsed += 16_667;
    }
    assert_eq!(progress, DownloadProgress::Completed);
    let status = update_doors_status(&vec![progress]);
    assert!(status.is_open);
    let fired = handle_door_reached_events(
        &vec![started(7, 8, true), started(8, 7, true)],
        &vec![7],
        &vec![Door { entity: 8, status }],
    );
    assert!(fired);
}

#[test]
fn level_completes_once() {
    let players = vec![1];
    let doors = vec![door(2, true)];
    let mut level = LevelCompletion::new();
    assert!(!level.observe(&vec![started(1, 3, true)], &players, &doors));
    assert!(!level.completed);
    assert!(level.observe(&vec![started(1, 2, true), started(2, 1, true)], &players, &doors));
    assert!(level.completed);
    assert!(!level.observe(&vec![started(1, 2, true)], &players, &doors));
    assert!(level.completed);
}
