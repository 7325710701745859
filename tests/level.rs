use signal_scuffle::geometry::Vec2;
use signal_scuffle::level::{default_position, default_size, PlayableArea, Player, Wall, Wifi, Zombie};

#[test]
fn absent_fields_take_defaults() {
    assert_eq!(default_size(), Vec2 { x: 1000, y: 1000 });
    assert_eq!(default_position(), Vec2 { x: 0, y: 0 });
    assert_eq!(Player::new(), Player { position: Vec2 { x: 0, y: 0 }, rotation: 0 });
    assert_eq!(Zombie::new(), Zombie { position: Vec2 { x: 0, y: 0 }, rotation: 0 });
    assert_eq!(Wifi::new(), Wifi { position: Vec2 { x: 0, y: 0 } });
    assert_eq!(Wall::new().size, Vec2 { x: 1000, y: 1000 });
    assert_eq!(Wall::new().rotation, 0);
    assert_eq!(PlayableArea::new(), PlayableArea { position: Vec2 { x: 0, y: 0 }, size: Vec2 { x: 1000, y: 1000 } });
}
