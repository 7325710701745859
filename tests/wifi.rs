use signal_scuffle::geometry::Vec2;
use signal_scuffle::wifi::{
    advance_downloads, next_download_progress, update_access_points, update_clients, update_download_progress, AccessPoint,
    DownloadProgress, WifiClient, CONNECT_DISTANCE_SQ, DOWNLOAD_TIME, GRACE_PERIOD,
};

fn ap(entity: u64, x: i32, y: i32) -> AccessPoint {
    AccessPoint { entity, position: Vec2 { x, y } }
}

fn run(mut s: DownloadProgress, connected: bool, dts: &[u64]) -> DownloadProgress {
    for &dt in dts {
        s = next_download_progress(s, connected, dt);
    }
    s
}

#[test]
fn no_access_point_means_no_signal() {
    let c = update_access_points(Vec2 { x: 0, y: 0 }, &vec![]);
    assert_eq!(c, WifiClient { access_point: None, distance_sq: 0 });
    assert!(!c.connected());
    assert_eq!(WifiClient::new(), c);
}

#[test]
fn nearest_access_point_is_selected() {
    let aps = vec![ap(1, 3000, 4000), ap(2, -1000, 0), ap(3, 0, 5000)];
    let c = update_access_points(Vec2 { x: 0, y: 0 }, &aps);
    assert_eq!(c.access_point, Some(2));
    assert_eq!(c.distance_sq, 1_000_000);
}

#[test]
fn equally_near_access_points_pick_the_last() {
    let aps = vec![ap(7, 1000, 0), ap(8, 0, 1000), ap(9, 0, 3000)];
    let c = update_access_points(Vec2 { x: 0, y: 0 }, &aps);
    assert_eq!(c.access_point, Some(8));
    assert_eq!(c.distance_sq, 1_000_000);
}

#[test]
fn squared_distance_uses_both_axes() {
    let aps = vec![ap(4, 1500, -2000)];
    let c = update_access_points(Vec2 { x: -500, y: 1000 }, &aps);
    assert_eq!(c.distance_sq, 2000 * 2000 + 3000 * 3000);
    assert!(!c.connected());
}

#[test]
fn connection_threshold() {
    let at = |d| WifiClient { access_point: Some(1), distance_sq: d };
    assert!(at(0).connected());
    assert!(at(CONNECT_DISTANCE_SQ).connected());
    assert!(!at(CONNECT_DISTANCE_SQ + 1).connected());
    assert!(!WifiClient { access_point: None, distance_sq: 0 }.connected());
    // one unit away: strength 1 / (1 + ln 1.2), about 0.846
    assert!(at(1_000_000).connected());
    // two units away: strength 1 / (1 + ln 1.8), about 0.63
    assert!(!at(4_000_000).connected());
}

#[test]
fn nearer_access_point_has_stronger_signal() {
    let aps = vec![ap(1, 0, 2000), ap(2, 0, 1500)];
    let c = update_access_points(Vec2 { x: 0, y: 0 }, &aps);
    assert_eq!(c.access_point, Some(2));
    assert!(c.connected());
}

#[test]
fn transition_table() {
    let (disconnected, completed) = (DownloadProgress::Disconnected, DownloadProgress::Completed);
    assert_eq!(next_download_progress(disconnected, true, 100), DownloadProgress::Downloading { progress: 0 });
    assert_eq!(next_download_progress(disconnected, false, 100), disconnected);
    assert_eq!(
        next_download_progress(DownloadProgress::LosingConnection { time_before_disconnection: 300, progress: 40 }, true, 100),
        DownloadProgress::Downloading { progress: 40 }
    );
    assert_eq!(
        next_download_progress(DownloadProgress::LosingConnection { time_before_disconnection: 300, progress: 40 }, false, 100),
        DownloadProgress::LosingConnection { time_before_disconnection: 200, progress: 40 }
    );
    assert_eq!(
        next_download_progress(DownloadProgress::LosingConnection { time_before_disconnection: 100, progress: 40 }, false, 100),
        disconnected
    );
    assert_eq!(next_download_progress(DownloadProgress::Downloading { progress: 40 }, true, 100), DownloadProgress::Downloading { progress: 140 });
    assert_eq!(
        next_download_progress(DownloadProgress::Downloading { progress: DOWNLOAD_TIME - 100 }, true, 100),
        completed
    );
    assert_eq!(
        next_download_progress(DownloadProgress::Downloading { progress: 40 }, false, 100),
        DownloadProgress::LosingConnection { time_before_disconnection: GRACE_PERIOD, progress: 40 }
    );
    assert_eq!(next_download_progress(completed, true, 100), completed);
    assert_eq!(next_download_progress(completed, false, u64::MAX), completed);
}

#[test]
fn download_takes_exactly_two_seconds() {
    let start = DownloadProgress::Downloading { progress: 0 };
    assert_eq!(run(start, true, &[500_000; 4]), DownloadProgress::Completed);
    assert_eq!(run(start, true, &[500_000; 3]), DownloadProgress::Downloading { progress: 1_500_000 });
    assert_eq!(run(start, true, &[16_667; 120]), DownloadProgress::Completed);
    assert_eq!(run(start, true, &[16_667; 119]), DownloadProgress::Downloading { progress: 1_983_373 });
    assert_eq!(
        run(start, true, &[1_999_999]),
        DownloadProgress::Downloading { progress: 1_999_999 }
    );
    assert_eq!(run(start, true, &[2_000_000]), DownloadProgress::Completed);
}

#[test]
fn grace_period_keeps_then_drops_progress() {
    let lost = next_download_progress(DownloadProgress::Downloading { progress: 700_000 }, false, 16_667);
    assert_eq!(
        lost,
        DownloadProgress::LosingConnection { time_before_disconnection: 5_000_000, progress: 700_000 }
    );
    let waiting = run(lost, false, &[1_000_000; 4]);
    assert_eq!(
        waiting,
        DownloadProgress::LosingConnection { time_before_disconnection: 1_000_000, progress: 700_000 }
    );
    assert_eq!(
        next_download_progress(waiting, true, 16_667),
        DownloadProgress::Downloading { progress: 700_000 }
    );
    let gone = run(lost, false, &[1_000_000; 5]);
    assert_eq!(gone, DownloadProgress::Disconnected);
    assert_eq!(next_download_progress(gone, true, 16_667), DownloadProgress::Downloading { progress: 0 });
}

#[test]
fn download_follows_the_client_signal() {
    let near = WifiClient { access_point: Some(3), distance_sq: 10 };
    let far = WifiClient { access_point: Some(3), distance_sq: 10_000_000 };
    let s = update_download_progress(DownloadProgress::Disconnected, &near, 10);
    assert_eq!(s, DownloadProgress::Downloading { progress: 0 });
    let s = update_download_progress(s, &near, 10);
    assert_eq!(s, DownloadProgress::Downloading { progress: 10 });
    let s = update_download_progress(s, &far, 10);
    assert_eq!(s, DownloadProgress::LosingConnection { time_before_disconnection: GRACE_PERIOD, progress: 10 });
}

#[test]
fn every_client_updated_together() {
    let aps = vec![ap(1, 0, 0), ap(2, 10_000, 0)];
    let clients = update_clients(&vec![Vec2 { x: 500, y: 0 }, Vec2 { x: 9_000, y: 0 }, Vec2 { x: 5_000, y: 0 }], &aps);
    assert_eq!(clients[0], WifiClient { access_point: Some(1), distance_sq: 250_000 });
    assert_eq!(clients[1], WifiClient { access_point: Some(2), distance_sq: 1_000_000 });
    assert_eq!(clients[2], WifiClient { access_point: Some(2), distance_sq: 25_000_000 });
    let mut progress = vec![
        DownloadProgress::Disconnected,
        DownloadProgress::Downloading { progress: 1_999_000 },
        DownloadProgress::Downloading { progress: 3 },
    ];
    advance_downloads(&mut progress, &clients, 1_000);
    assert_eq!(
        progress,
        vec![
            DownloadProgress::Downloading { progress: 0 },
            DownloadProgress::Completed,
            DownloadProgress::LosingConnection { time_before_disconnection: GRACE_PERIOD, progress: 3 },
        ]
    );
    assert!(update_clients(&vec![Vec2 { x: 1, y: 1 }], &vec![])[0].access_point.is_none());
}
