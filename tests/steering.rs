use signal_scuffle::geometry::{distance_sq, normalize, Vec2};
use signal_scuffle::steering::{follow_wifi_signal, pursue};
use signal_scuffle::wifi::{AccessPoint, WifiClient};

#[test]
fn near_goal_slows_down() {
    assert_eq!(pursue(Vec2 { x: 100, y: 100 }, Vec2 { x: 400, y: 500 }), Vec2 { x: 300, y: 400 });
    assert_eq!(pursue(Vec2 { x: 5, y: 5 }, Vec2 { x: 5, y: 5 }), Vec2 { x: 0, y: 0 });
}

#[test]
fn far_goal_full_speed() {
    assert_eq!(pursue(Vec2 { x: 0, y: 0 }, Vec2 { x: 3000, y: -4000 }), Vec2 { x: 600, y: -800 });
    assert_eq!(pursue(Vec2 { x: 0, y: 0 }, Vec2 { x: 1000, y: 0 }), Vec2 { x: 1000, y: 0 });
    assert_eq!(pursue(Vec2 { x: 0, y: 0 }, Vec2 { x: 0, y: -2000 }), Vec2 { x: 0, y: -1000 });
}

#[test]
fn follows_the_selected_access_point() {
    let aps = vec![
        AccessPoint { entity: 4, position: Vec2 { x: 9000, y: 0 } },
        AccessPoint { entity: 5, position: Vec2 { x: 0, y: 5000 } },
    ];
    let client = WifiClient { access_point: Some(5), distance_sq: 25_000_000 };
    assert_eq!(follow_wifi_signal(Vec2 { x: 0, y: 0 }, &client, &aps), Some(Vec2 { x: 0, y: 1000 }));
}

#[test]
fn no_access_point_leaves_target() {
    let aps = vec![AccessPoint { entity: 4, position: Vec2 { x: 9000, y: 0 } }];
    let none = WifiClient { access_point: None, distance_sq: 0 };
    assert_eq!(follow_wifi_signal(Vec2 { x: 0, y: 0 }, &none, &aps), None);
    let gone = WifiClient { access_point: Some(7), distance_sq: 0 };
    assert_eq!(follow_wifi_signal(Vec2 { x: 0, y: 0 }, &gone, &aps), None);
}

#[test]
fn geometry_helpers() {
    assert_eq!(distance_sq(Vec2 { x: i32::MIN, y: i32::MIN }, Vec2 { x: i32::MAX, y: i32::MAX }), 2 * (u32::MAX as u128).pow(2));
    assert_eq!(normalize(5, 0), Vec2 { x: 1000, y: 0 });
    assert_eq!(normalize(1, 1), Vec2 { x: 500, y: 500 });
    assert_eq!(normalize(-1_099_511_627_776, 1_099_511_627_776), Vec2 { x: -707, y: 707 });
}
