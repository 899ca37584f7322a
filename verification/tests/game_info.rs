use sc2::float::Float;
use sc2::game_info::{GameInfo, PlayerInfo};
use sc2::geometry::{Point2, Rect, Size};
use sc2::player::{AIBuild, Difficulty, PlayerType, Race};
use sc2::wire;

fn float(value: f32) -> Float {
    Float::from_bits(value.to_bits())
}

fn text(value: &str) -> Option<String> {
    Some(value.to_string())
}

fn area(x0: i32, y0: i32, x1: i32, y1: i32) -> wire::ResponseGameInfo {
    wire::ResponseGameInfo {
        start_raw: Some(wire::StartRaw {
            playable_area: Some(wire::RectangleI {
                p0: Some(wire::PointI { x: Some(x0), y: Some(y0) }),
                p1: Some(wire::PointI { x: Some(x1), y: Some(y1) }),
            }),
            ..Default::default()
        }),
        ..Default::default()
    }
}

fn center(x0: i32, y0: i32, x1: i32, y1: i32) -> Point2 {
    GameInfo::from_proto(area(x0, y0, x1, y1)).map_center
}

#[test]
fn game_info_decodes_field_by_field() {
    let grid = |bits: i32, data: Vec<u8>| wire::ImageData {
        bits_per_pixel: Some(bits),
        size: Some(wire::Size2DI { x: Some(4), y: Some(2) }),
        data: Some(data),
    };
    let info = wire::ResponseGameInfo {
        map_name: text("Ever Dream LE"),
        mod_names: vec!["first".to_string(), "second".to_string()],
        local_map_path: text("maps/EverDreamLE.SC2Map"),
        player_info: vec![
            wire::PlayerInfo {
                player_id: Some(1),
                player_type: Some(1),
                race_requested: Some(4),
                race_actual: Some(2),
                difficulty: None,
                ai_build: None,
                player_name: text("bot"),
            },
            wire::PlayerInfo {
                player_id: Some(2),
                player_type: Some(2),
                race_requested: Some(3),
                race_actual: None,
                difficulty: Some(7),
                ai_build: Some(5),
                player_name: None,
            },
        ],
        start_raw: Some(wire::StartRaw {
            map_size: Some(wire::Size2DI { x: Some(200), y: Some(176) }),
            pathing_grid: Some(grid(1, vec![0xf0])),
            terrain_height: Some(grid(8, vec![1, 2, 3, 4, 5, 6, 7, 8])),
            placement_grid: None,
            playable_area: Some(wire::RectangleI {
                p0: Some(wire::PointI { x: Some(16), y: Some(10) }),
                p1: Some(wire::PointI { x: Some(183), y: Some(161) }),
            }),
            start_locations: vec![
                wire::Point2D { x: Some(float(40.5)), y: Some(float(131.5)) },
                wire::Point2D { x: None, y: Some(float(2.0)) },
            ],
        }),
    };
    let decoded = GameInfo::from_proto(info);
    assert_eq!(decoded.map_name, "Ever Dream LE");
    assert_eq!(decoded.map_name_path, "EverDreamLE");
    assert_eq!(decoded.mod_names, vec!["first".to_string(), "second".to_string()]);
    assert_eq!(decoded.local_map_path, "maps/EverDreamLE.SC2Map");
    assert_eq!(decoded.players.len(), 2);
    assert_eq!(
        decoded.player(1),
        Some(&PlayerInfo {
            id: 1,
            player_type: PlayerType::Participant,
            race_requested: Race::Random,
            race_actual: Some(Race::Zerg),
            difficulty: None,
            ai_build: None,
            player_name: text("bot"),
        })
    );
    assert_eq!(
        decoded.player(2),
        Some(&PlayerInfo {
            id: 2,
            player_type: PlayerType::Computer,
            race_requested: Race::Protoss,
            race_actual: None,
            difficulty: Some(Difficulty::VeryHard),
            ai_build: Some(AIBuild::Macro),
            player_name: None,
        })
    );
    assert_eq!(decoded.player(3), None);
    assert_eq!(decoded.map_size, Size::new(200, 176));
    assert_eq!(decoded.pathing_grid, grid(1, vec![0xf0]));
    assert_eq!(decoded.terrain_height, grid(8, vec![1, 2, 3, 4, 5, 6, 7, 8]));
    assert_eq!(decoded.placement_grid, wire::ImageData::default());
    assert_eq!(decoded.playable_area, Rect::new(16, 10, 183, 161));
    assert_eq!(
        decoded.start_locations,
        vec![
            Point2::new(float(40.5), float(131.5)),
            Point2::new(float(0.0), float(2.0)),
        ]
    );
    assert_eq!(decoded.map_center, Point2::new(float(99.0), float(85.0)));
}

#[test]
fn an_empty_answer_decodes_to_defaults() {
    let decoded = GameInfo::from_proto(wire::ResponseGameInfo::default());
    assert_eq!(decoded.map_name, "");
    assert_eq!(decoded.map_name_path, "");
    assert!(decoded.mod_names.is_empty());
    assert_eq!(decoded.local_map_path, "");
    assert!(decoded.players.is_empty());
    assert_eq!(decoded.map_size, Size::new(0, 0));
    assert_eq!(decoded.pathing_grid, wire::ImageData::default());
    assert_eq!(decoded.terrain_height, wire::ImageData::default());
    assert_eq!(decoded.placement_grid, wire::ImageData::default());
    assert_eq!(decoded.playable_area, Rect::new(0, 0, 0, 0));
    assert!(decoded.start_locations.is_empty());
    assert_eq!(decoded.map_center, Point2::new(float(0.0), float(0.0)));
}

#[test]
fn the_center_lies_halfway_between_the_corners() {
    assert_eq!(center(0, 0, 10, 20), Point2::new(float(5.0), float(10.0)));
    assert_eq!(center(16, 10, 183, 161), Point2::new(float(99.0), float(85.0)));
    assert_eq!(center(3, 3, 4, 4), Point2::new(float(3.0), float(3.0)));
    assert_eq!(center(7, 9, 7, 9), Point2::new(float(7.0), float(9.0)));
}

#[test]
fn the_center_rounds_toward_the_first_corner() {
    assert_eq!(center(10, 20, 0, 1), Point2::new(float(5.0), float(11.0)));
    assert_eq!(center(4, 4, 3, 1), Point2::new(float(4.0), float(3.0)));
    assert_eq!(center(-5, -5, 0, 2), Point2::new(float(-3.0), float(-2.0)));
}

#[test]
fn the_center_does_not_overflow() {
    assert_eq!(
        center(i32::MIN, i32::MAX, i32::MAX, i32::MIN),
        Point2::new(float(-1.0), float(0.0))
    );
    assert_eq!(
        center(i32::MAX, i32::MIN, i32::MAX, i32::MIN),
        Point2::new(float(i32::MAX as f32), float(i32::MIN as f32))
    );
}

#[test]
fn negative_extents_read_as_zero() {
    let decoded = GameInfo::from_proto(wire::ResponseGameInfo {
        start_raw: Some(wire::StartRaw {
            map_size: Some(wire::Size2DI { x: Some(-1), y: Some(5) }),
            playable_area: Some(wire::RectangleI {
                p0: Some(wire::PointI { x: Some(-4), y: None }),
                p1: None,
            }),
            ..Default::default()
        }),
        ..Default::default()
    });
    assert_eq!(decoded.map_size, Size::new(0, 5));
    assert_eq!(decoded.playable_area, Rect::new(0, 0, 0, 0));
    assert_eq!(decoded.map_center, Point2::new(float(-2.0), float(0.0)));
}

#[test]
fn the_file_name_of_the_map_loses_its_extension() {
    let stem = |path: &str| {
        GameInfo::from_proto(wire::ResponseGameInfo {
            local_map_path: text(path),
            ..Default::default()
        })
        .map_name_path
    };
    assert_eq!(stem("EverDreamLE.SC2Map"), "EverDreamLE");
    assert_eq!(stem("Ladder2019/EverDreamLE.SC2Map"), "EverDreamLE");
    assert_eq!(stem("NoExtension"), "NoExtension");
    assert_eq!(stem("a.b.c"), "a.b");
    assert_eq!(stem(""), "");
}

#[test]
fn the_given_file_name_is_kept() {
    let decoded = GameInfo::from_parts(
        wire::ResponseGameInfo { local_map_path: text("x/y.SC2Map"), ..Default::default() },
        "chosen".to_string(),
    );
    assert_eq!(decoded.map_name_path, "chosen");
    assert_eq!(decoded.local_map_path, "x/y.SC2Map");
}

#[test]
fn the_last_player_of_an_id_stays() {
    let decoded = GameInfo::from_proto(wire::ResponseGameInfo {
        player_info: vec![
            wire::PlayerInfo { player_id: Some(1), player_name: text("first"), ..Default::default() },
            wire::PlayerInfo { player_id: None, player_name: text("nobody"), ..Default::default() },
            wire::PlayerInfo { player_id: Some(1), player_name: text("second"), ..Default::default() },
        ],
        ..Default::default()
    });
    assert_eq!(decoded.players.len(), 2);
    assert_eq!(decoded.player(1).unwrap().player_name, text("second"));
    assert_eq!(decoded.player(0).unwrap().player_name, text("nobody"));
}

#[test]
fn players_decode_without_a_catalog() {
    let info = PlayerInfo::from_proto(wire::PlayerInfo {
        player_id: Some(9),
        player_type: Some(3),
        race_requested: Some(1),
        race_actual: Some(0),
        difficulty: Some(99),
        ai_build: Some(0),
        player_name: text("watcher"),
    });
    assert_eq!(
        info,
        PlayerInfo {
            id: 9,
            player_type: PlayerType::Observer,
            race_requested: Race::Terran,
            race_actual: Some(Race::Random),
            difficulty: Some(Difficulty::VeryEasy),
            ai_build: Some(AIBuild::RandomBuild),
            player_name: text("watcher"),
        }
    );
}

#[test]
fn the_default_is_an_empty_answer() {
    let fresh = GameInfo::default();
    assert_eq!(fresh.map_name, "");
    assert_eq!(fresh.map_name_path, "");
    assert!(fresh.mod_names.is_empty());
    assert_eq!(fresh.local_map_path, "");
    assert!(fresh.players.is_empty());
    assert_eq!(fresh.map_size, Size::new(0, 0));
    assert_eq!(fresh.pathing_grid, wire::ImageData::default());
    assert_eq!(fresh.terrain_height, wire::ImageData::default());
    assert_eq!(fresh.placement_grid, wire::ImageData::default());
    assert_eq!(fresh.playable_area, Rect::new(0, 0, 0, 0));
    assert!(fresh.start_locations.is_empty());
    assert_eq!(fresh.map_center, Point2::new(float(0.0), float(0.0)));
}
