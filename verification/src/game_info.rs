//! The constants of a game: the map, its grids and the players.

use crate::float::Float;
use crate::fx::CodeMap;
use crate::game_data::{decode_catalog, files_under, is_catalog_of, TryFromProto};
use crate::geometry::{Point2, Rect, Size};
use crate::player::{AIBuild, Difficulty, PlayerType, Race};
use crate::wire;
use crate::wire::{
    code_or_default, float_or_zero, take_code, take_float, take_text, take_u32, text_or_empty,
    text_view,
};
use std::path::Path;
use vstd::prelude::*;

verus! {

/// Whether `part` stands in `whole` as a run of neighbouring characters.
pub open spec fn is_part_of(part: Seq<char>, whole: Seq<char>) -> bool {
    exists|start: int, end: int|
        0 <= start <= end <= whole.len() && part == #[trigger] whole.subrange(start, end)
}

/// `Path::file_stem`, as text: the file name of the path without its extension, and
/// `None` where the path has no file name. What counts as a separator depends on
/// the platform. On every platform the stem is a part of the path, and the empty
/// path has no file name.
#[verifier::external_body]
fn file_stem(path: &str) -> (stem: Option<String>)
    ensures
        stem is Some ==> is_part_of(stem->0@, path@),
        path@.len() == 0 ==> stem is None,
{
    match Path::new(path).file_stem() {
        Some(stem) => Some(stem.to_string_lossy().into_owned()),
        None => None,
    }
}

/// What is known of a player.
#[derive(Clone, Debug, PartialEq, Eq)]
pub struct PlayerInfo {
    /// The player's id.
    pub id: u32,
    /// Whether the player takes part, is a computer or observes.
    pub player_type: PlayerType,
    /// The race the player asked for, which can be random.
    pub race_requested: Race,
    /// The race the player got, which the engine tells of the bot's own player only.
    pub race_actual: Option<Race>,
    /// The difficulty, which the engine tells of computer opponents only.
    pub difficulty: Option<Difficulty>,
    /// The build, which the engine tells of computer opponents only.
    pub ai_build: Option<AIBuild>,
    /// The player's name in the game.
    pub player_name: Option<String>,
}

impl PlayerInfo {
    /// The race of an optional field: absent where the field was left out.
    pub open spec fn race_of_field(field: Option<i32>) -> Option<Race> {
        match field {
            Some(code) => Some(Race::of_code(code)),
            None => None,
        }
    }

    /// The difficulty of an optional field: absent where the field was left out.
    pub open spec fn difficulty_of_field(field: Option<i32>) -> Option<Difficulty> {
        match field {
            Some(code) => Some(Difficulty::of_code(code)),
            None => None,
        }
    }

    /// The build of an optional field: absent where the field was left out.
    pub open spec fn build_of_field(field: Option<i32>) -> Option<AIBuild> {
        match field {
            Some(code) => Some(AIBuild::of_code(code)),
            None => None,
        }
    }

    /// Decodes what the engine tells of a player. This never fails.
    pub fn from_proto(proto: wire::PlayerInfo) -> (info: PlayerInfo)
        ensures
            info.decodes(proto),
    {
        PlayerInfo {
            id: take_u32(proto.player_id),
            player_type: PlayerType::from_proto(take_code(proto.player_type)),
            race_requested: Race::from_proto(take_code(proto.race_requested)),
            race_actual: match proto.race_actual {
                Some(code) => Some(Race::from_proto(code)),
                None => None,
            },
            difficulty: match proto.difficulty {
                Some(code) => Some(Difficulty::from_proto(code)),
                None => None,
            },
            ai_build: match proto.ai_build {
                Some(code) => Some(AIBuild::from_proto(code)),
                None => None,
            },
            player_name: proto.player_name,
        }
    }
}

impl TryFromProto for PlayerInfo {
    type Proto = wire::PlayerInfo;

    open spec fn key(proto: wire::PlayerInfo) -> u32 {
        proto.player_id.unwrap_or(0)
    }

    /// A player is filed under an id, not under a code of a closed space: every
    /// record resolves.
    open spec fn resolves(proto: wire::PlayerInfo) -> bool {
        true
    }

    open spec fn decodes(&self, proto: wire::PlayerInfo) -> bool {
        &&& self.id == proto.player_id.unwrap_or(0)
        &&& self.player_type == PlayerType::of_code(code_or_default(proto.player_type))
        &&& self.race_requested == Race::of_code(code_or_default(proto.race_requested))
        &&& self.race_actual == Self::race_of_field(proto.race_actual)
        &&& self.difficulty == Self::difficulty_of_field(proto.difficulty)
        &&& self.ai_build == Self::build_of_field(proto.ai_build)
        &&& text_view(self.player_name) == text_view(proto.player_name)
    }

    open spec fn code(&self) -> u32 {
        self.id
    }

    fn try_from_proto(proto: wire::PlayerInfo) -> (record: Option<PlayerInfo>) {
        Some(PlayerInfo::from_proto(proto))
    }

    fn id_code(&self) -> (code: u32) {
        self.id
    }
}

/// Half of a difference, rounded toward zero.
pub open spec fn half(difference: int) -> int {
    if difference >= 0 {
        difference / 2
    } else {
        -((-difference) / 2)
    }
}

/// The coordinate halfway from `from` to `to`.
pub open spec fn midway(from: i32, to: i32) -> int {
    from + half(to - from)
}

/// A coordinate of the wire schema as an extent in cells. The schema's coordinates
/// are signed; one below zero reads as zero.
pub open spec fn extent(coordinate: i32) -> usize {
    if coordinate < 0 {
        0
    } else {
        coordinate as usize
    }
}

/// The coordinate of an optional field, zero where the field was left out.
pub open spec fn coordinate_or_zero(field: Option<i32>) -> i32 {
    match field {
        Some(coordinate) => coordinate,
        None => 0,
    }
}

/// The corner of an optional field, with every coordinate that was left out at zero.
pub open spec fn corner(field: Option<wire::PointI>) -> (i32, i32) {
    match field {
        Some(point) => (coordinate_or_zero(point.x), coordinate_or_zero(point.y)),
        None => (0, 0),
    }
}

/// The two corners of the playable area, at zero where the engine left them out.
pub open spec fn area_corners(start_raw: Option<wire::StartRaw>) -> ((i32, i32), (i32, i32)) {
    match start_raw {
        Some(raw) => match raw.playable_area {
            Some(area) => (corner(area.p0), corner(area.p1)),
            None => ((0, 0), (0, 0)),
        },
        None => ((0, 0), (0, 0)),
    }
}

/// The extent of the map, at zero where the engine left it out.
pub open spec fn map_extent(start_raw: Option<wire::StartRaw>) -> (i32, i32) {
    match start_raw {
        Some(raw) => match raw.map_size {
            Some(size) => (coordinate_or_zero(size.x), coordinate_or_zero(size.y)),
            None => (0, 0),
        },
        None => (0, 0),
    }
}

/// The start locations that the engine sent.
pub open spec fn sent_start_locations(start_raw: Option<wire::StartRaw>) -> Seq<wire::Point2D> {
    match start_raw {
        Some(raw) => raw.start_locations@,
        None => Seq::empty(),
    }
}

/// The position that a point of the wire schema decodes to.
pub open spec fn position(point: wire::Point2D) -> Point2 {
    Point2 { x: float_or_zero(point.x), y: float_or_zero(point.y) }
}

/// Whether `grid` is what an optional grid of the wire schema reads as: the grid
/// itself, and a grid with every field left out where the engine sent none.
pub open spec fn reads_grid(grid: wire::ImageData, field: Option<wire::ImageData>) -> bool {
    match field {
        Some(sent) => grid == sent,
        None => grid.bits_per_pixel is None && grid.size is None && grid.data is None,
    }
}

fn take_coordinate(field: Option<i32>) -> (coordinate: i32)
    ensures
        coordinate == coordinate_or_zero(field),
{
    match field {
        Some(coordinate) => coordinate,
        None => 0,
    }
}

fn take_corner(field: Option<wire::PointI>) -> (at: (i32, i32))
    ensures
        at == corner(field),
{
    match field {
        Some(point) => (take_coordinate(point.x), take_coordinate(point.y)),
        None => (0, 0),
    }
}

fn take_extent(coordinate: i32) -> (cells: usize)
    ensures
        cells == extent(coordinate),
{
    if coordinate < 0 {
        0
    } else {
        coordinate as usize
    }
}

fn take_grid(field: Option<wire::ImageData>) -> (grid: wire::ImageData)
    ensures
        reads_grid(grid, field),
{
    match field {
        Some(grid) => grid,
        None => wire::ImageData { bits_per_pixel: None, size: None, data: None },
    }
}

/// The coordinate halfway between two, computed without overflow.
fn middle(from: i32, to: i32) -> (center: i32)
    ensures
        center == midway(from, to),
{
    let difference: i64 = to as i64 - from as i64;
    let step: i64 = if difference >= 0 {
        difference / 2
    } else {
        0 - ((0 - difference) / 2)
    };
    (from as i64 + step) as i32
}

/// Everything that stays the same during a game.
#[derive(Clone, Debug)]
pub struct GameInfo {
    /// The name of the map, in the language of the game.
    pub map_name: String,
    /// The name of the map's file, without its extension.
    pub map_name_path: String,
    /// The mods that the map uses.
    pub mod_names: Vec<String>,
    /// The path to the map on this computer.
    pub local_map_path: String,
    /// The players, by their ids.
    pub players: CodeMap<PlayerInfo>,
    /// The full size of the map.
    pub map_size: Size,
    /// The grid that tells where units can walk.
    pub pathing_grid: wire::ImageData,
    /// The grid of the terrain's height.
    pub terrain_height: wire::ImageData,
    /// The grid that tells where buildings can stand.
    pub placement_grid: wire::ImageData,
    /// The part of the map where units can be.
    pub playable_area: Rect,
    /// Where the players can start.
    pub start_locations: Vec<Point2>,
    /// The center of the playable area.
    pub map_center: Point2,
}

impl Default for GameInfo {
    /// The game info before the engine sent any: what an answer decodes to in which
    /// every field was left out.
    fn default() -> (game_info: GameInfo)
        ensures
            game_info.map_name@.len() == 0,
            game_info.map_name_path@.len() == 0,
            game_info.mod_names@.len() == 0,
            game_info.local_map_path@.len() == 0,
            game_info.players@ == Map::<u32, PlayerInfo>::empty(),
            game_info.map_size == (Size { x: 0, y: 0 }),
            reads_grid(game_info.pathing_grid, None),
            reads_grid(game_info.terrain_height, None),
            reads_grid(game_info.placement_grid, None),
            game_info.playable_area == (Rect { x0: 0, y0: 0, x1: 0, y1: 0 }),
            game_info.start_locations@.len() == 0,
            game_info.map_center == (Point2 { x: Float { bits: 0 }, y: Float { bits: 0 } }),
    {
        let info = wire::ResponseGameInfo {
            map_name: None,
            mod_names: Vec::new(),
            local_map_path: None,
            player_info: Vec::new(),
            start_raw: None,
        };
        let game_info = GameInfo::from_parts(info, String::new());
        proof {
            assert forall|id: u32| !game_info.players@.contains_key(id) by {
                if game_info.players@.contains_key(id) {
                    let index = choose|index: int| #[trigger]
                        files_under::<PlayerInfo>(info.player_info@, index, id);
                }
            }
            assert(game_info.players@ =~= Map::empty());
        }
        game_info
    }
}

impl GameInfo {
    /// Whether this is what the engine's answer decodes to. The name of the map's
    /// file is a part of the path that was sent; which part, the platform decides.
    pub open spec fn decodes(&self, info: wire::ResponseGameInfo) -> bool {
        &&& self.decodes_with_any_file_name(info)
        &&& is_part_of(self.map_name_path@, text_or_empty(info.local_map_path))
    }

    /// Whether this is what the engine's answer decodes to, in every field but
    /// `map_name_path`. The center of the map is not sent: it lies halfway between
    /// the corners of the playable area.
    pub open spec fn decodes_with_any_file_name(&self, info: wire::ResponseGameInfo) -> bool {
        let (p0, p1) = area_corners(info.start_raw);
        let size = map_extent(info.start_raw);
        let locations = sent_start_locations(info.start_raw);
        &&& self.map_name@ == text_or_empty(info.map_name)
        &&& self.mod_names@.len() == info.mod_names@.len()
        &&& forall|i: int|
            0 <= i < info.mod_names@.len() ==> (#[trigger] self.mod_names@[i])@ == info.mod_names@[i]@
        &&& self.local_map_path@ == text_or_empty(info.local_map_path)
        &&& is_catalog_of(self.players@, info.player_info@)
        &&& self.map_size == (Size { x: extent(size.0), y: extent(size.1) })
        &&& match info.start_raw {
            Some(raw) => {
                &&& reads_grid(self.pathing_grid, raw.pathing_grid)
                &&& reads_grid(self.terrain_height, raw.terrain_height)
                &&& reads_grid(self.placement_grid, raw.placement_grid)
            },
            None => {
                &&& reads_grid(self.pathing_grid, None)
                &&& reads_grid(self.terrain_height, None)
                &&& reads_grid(self.placement_grid, None)
            },
        }
        &&& self.playable_area == (Rect {
            x0: extent(p0.0),
            y0: extent(p0.1),
            x1: extent(p1.0),
            y1: extent(p1.1),
        })
        &&& self.start_locations@ == locations.map_values(|point: wire::Point2D| position(point))
        &&& self.map_center == (Point2 {
            x: Float::spec_from_i32(midway(p0.0, p1.0) as i32),
            y: Float::spec_from_i32(midway(p0.1, p1.1) as i32),
        })
    }

    fn decode_locations(points: &Vec<wire::Point2D>) -> (locations: Vec<Point2>)
        ensures
            locations@ == points@.map_values(|point: wire::Point2D| position(point)),
    {
        let mut locations: Vec<Point2> = Vec::new();
        let ghost all = points@.map_values(|point: wire::Point2D| position(point));
        let mut i: usize = 0;
        while i < points.len()
            invariant
                i <= points.len(),
                all == points@.map_values(|point: wire::Point2D| position(point)),
                locations@ == all.take(i as int),
            decreases points.len() - i,
        {
            let point = &points[i];
            locations.push(Point2 { x: take_float(point.x), y: take_float(point.y) });
            assert(locations@ =~= all.take(i + 1));
            i += 1;
        }
        assert(all.take(i as int) =~= all);
        locations
    }

    /// Decodes the engine's answer, with the name of the map's file given.
    pub fn from_parts(info: wire::ResponseGameInfo, map_name_path: String) -> (game_info: GameInfo)
        ensures
            game_info.decodes_with_any_file_name(info),
            game_info.map_name_path == map_name_path,
    {
        let start_raw = match info.start_raw {
            Some(raw) => raw,
            None => wire::StartRaw {
                map_size: None,
                pathing_grid: None,
                terrain_height: None,
                placement_grid: None,
                playable_area: None,
                start_locations: Vec::new(),
            },
        };
        let size = match start_raw.map_size {
            Some(size) => (take_coordinate(size.x), take_coordinate(size.y)),
            None => (0, 0),
        };
        let (p0, p1) = match start_raw.playable_area {
            Some(area) => (take_corner(area.p0), take_corner(area.p1)),
            None => ((0, 0), (0, 0)),
        };
        let start_locations = Self::decode_locations(&start_raw.start_locations);
        assert(start_raw.start_locations@ =~= sent_start_locations(info.start_raw));
        GameInfo {
            map_name: take_text(info.map_name),
            map_name_path,
            mod_names: info.mod_names,
            local_map_path: take_text(info.local_map_path),
            players: decode_catalog(info.player_info),
            map_size: Size::new(take_extent(size.0), take_extent(size.1)),
            pathing_grid: take_grid(start_raw.pathing_grid),
            terrain_height: take_grid(start_raw.terrain_height),
            placement_grid: take_grid(start_raw.placement_grid),
            playable_area: Rect::new(
                take_extent(p0.0),
                take_extent(p0.1),
                take_extent(p1.0),
                take_extent(p1.1),
            ),
            start_locations,
            map_center: Point2::new(
                Float::from_i32(middle(p0.0, p1.0)),
                Float::from_i32(middle(p0.1, p1.1)),
            ),
        }
    }

    /// Decodes the engine's answer. This never fails. The name of the map's file is
    /// taken from the path that the engine sent: it is the stem of the path's file
    /// name, a part of the path, and empty where the path has no file name.
    pub fn from_proto(info: wire::ResponseGameInfo) -> (game_info: GameInfo)
        ensures
            game_info.decodes(info),
    {
        let stem = match &info.local_map_path {
            Some(path) => file_stem(path.as_str()),
            None => None,
        };
        let map_name_path = match stem {
            Some(stem) => stem,
            None => String::new(),
        };
        proof {
            let path = text_or_empty(info.local_map_path);
            if stem is None {
                assert(map_name_path@ =~= path.subrange(0, 0));
            }
        }
        Self::from_parts(info, map_name_path)
    }

    /// What is known of the player with the given id.
    pub fn player(&self, id: u32) -> (found: Option<&PlayerInfo>)
        ensures
            found == if self.players@.contains_key(id) {
                Some(&self.players@[id])
            } else {
                None
            },
    {
        crate::fx::map_get(&self.players, id)
    }
}

} // verus!
