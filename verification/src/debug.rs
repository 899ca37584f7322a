//! Batching of debug commands.
//!
//! A [`Debugger`] collects what the bot asks for during a step: shapes and texts to
//! draw, units to kill, and directives that the engine takes one by one (cheats, unit
//! spawns, value overrides, the end of the game). [`Debugger::get_commands`] hands out
//! the batch of the step: the directives in the order they were issued, then one
//! command with every drawing, then one command with every tag to kill.
//! [`Debugger::clear_commands`] drops the batch once it was sent, so a failed send
//! can be repeated with the same batch.

use crate::float::Float;
use crate::fx::{set_drain, set_insert, TagSet};
use crate::geometry::{Point2, Point3};
use crate::ids::UnitTypeId;
use crate::wire;
use rustc_hash::FxHashSet;
use vstd::prelude::*;

verus! {

/// A color by its red, green and blue parts.
pub type Color = (u32, u32, u32);

/// A position on the screen, from (0, 0) in the upper left corner to (1, 1).
pub type ScreenPos = (Float, Float);

/// Where a text is shown.
#[derive(Clone, Copy, Debug, PartialEq, Eq)]
pub enum DebugPos {
    /// On the screen.
    Screen(ScreenPos),
    /// In the game world.
    World(Point3),
}

/// One thing to draw.
#[derive(Clone, Debug, PartialEq, Eq)]
pub enum DebugDraw {
    /// A text, where to show it, its color and its size in pixels.
    Text(String, DebugPos, Option<Color>, Option<u32>),
    /// A line between two points.
    Line(Point3, Point3, Option<Color>),
    /// A box between two opposite corners.
    Box(Point3, Point3, Option<Color>),
    /// A sphere around a point, with its radius.
    Sphere(Point3, Float, Option<Color>),
}

/// One thing to draw, with its text as a sequence of characters.
pub enum DrawView {
    Text(Seq<char>, DebugPos, Option<Color>, Option<u32>),
    Line(Point3, Point3, Option<Color>),
    Box(Point3, Point3, Option<Color>),
    Sphere(Point3, Float, Option<Color>),
}

impl View for DebugDraw {
    type V = DrawView;

    open spec fn view(&self) -> DrawView {
        match self {
            DebugDraw::Text(text, pos, color, size) => DrawView::Text(text@, *pos, *color, *size),
            DebugDraw::Line(p0, p1, color) => DrawView::Line(*p0, *p1, *color),
            DebugDraw::Box(p0, p1, color) => DrawView::Box(*p0, *p1, *color),
            DebugDraw::Sphere(center, radius, color) => DrawView::Sphere(*center, *radius, *color),
        }
    }
}

/// The values of a unit that a debug command can set.
#[derive(Clone, Copy, Debug, PartialEq, Eq, Structural)]
pub enum UnitValue {
    Energy,
    Health,
    Shield,
}

impl UnitValue {
    /// The number of the value in the schema, which calls them energy, life and shields.
    pub open spec fn code(self) -> i32 {
        match self {
            UnitValue::Energy => 1,
            UnitValue::Health => 2,
            UnitValue::Shield => 3,
        }
    }

    pub fn into_proto(self) -> (code: i32)
        ensures
            code == self.code(),
    {
        match self {
            UnitValue::Energy => 1,
            UnitValue::Health => 2,
            UnitValue::Shield => 3,
        }
    }
}

/// The cheats and switches of the game state.
#[derive(Clone, Copy, Debug, PartialEq, Eq, Structural)]
pub enum DebugGameState {
    ShowMap,
    ControlEnemy,
    Food,
    Free,
    AllResources,
    God,
    Minerals,
    Gas,
    Cooldown,
    TechTree,
    Upgrade,
    FastBuild,
}

impl DebugGameState {
    /// The number of the switch in the schema.
    pub open spec fn code(self) -> i32 {
        match self {
            DebugGameState::ShowMap => 1,
            DebugGameState::ControlEnemy => 2,
            DebugGameState::Food => 3,
            DebugGameState::Free => 4,
            DebugGameState::AllResources => 5,
            DebugGameState::God => 6,
            DebugGameState::Minerals => 7,
            DebugGameState::Gas => 8,
            DebugGameState::Cooldown => 9,
            DebugGameState::TechTree => 10,
            DebugGameState::Upgrade => 11,
            DebugGameState::FastBuild => 12,
        }
    }

    pub fn into_proto(self) -> (code: i32)
        ensures
            code == self.code(),
    {
        match self {
            DebugGameState::ShowMap => 1,
            DebugGameState::ControlEnemy => 2,
            DebugGameState::Food => 3,
            DebugGameState::Free => 4,
            DebugGameState::AllResources => 5,
            DebugGameState::God => 6,
            DebugGameState::Minerals => 7,
            DebugGameState::Gas => 8,
            DebugGameState::Cooldown => 9,
            DebugGameState::TechTree => 10,
            DebugGameState::Upgrade => 11,
            DebugGameState::FastBuild => 12,
        }
    }
}

/// A request to spawn units: the unit type, the owner's player id, the position and the count.
pub type CreateUnits = (UnitTypeId, Option<u32>, Point2, u32);

/// A request to set a value of a unit: the unit's tag, the value to set and the new amount.
pub type SetUnitValue = (u64, UnitValue, u32);

/// One command of a batch.
#[derive(Clone, Debug, PartialEq, Eq)]
pub enum DebugCommand {
    /// Everything to draw in this step.
    Draw(Vec<DebugDraw>),
    /// A cheat or switch.
    GameState(DebugGameState),
    /// Units to spawn: their type, the owner's player id, the position and the count.
    CreateUnit(UnitTypeId, Option<u32>, Point2, u32),
    /// The tags of the units to kill.
    KillUnit(Vec<u64>),
    /// The end of the game, with victory for the bot where the flag is set.
    EndGame(bool),
    /// A value of a unit to set: the unit's tag, the value and the new amount.
    SetUnitValue(u64, UnitValue, u32),
}

/// One command of a batch, with sequences in place of vectors.
pub enum CommandView {
    Draw(Seq<DrawView>),
    GameState(DebugGameState),
    CreateUnit(UnitTypeId, Option<u32>, Point2, u32),
    KillUnit(Seq<u64>),
    EndGame(bool),
    SetUnitValue(u64, UnitValue, u32),
}

impl View for DebugCommand {
    type V = CommandView;

    open spec fn view(&self) -> CommandView {
        match self {
            DebugCommand::Draw(drawings) => CommandView::Draw(draw_views(drawings@)),
            DebugCommand::GameState(state) => CommandView::GameState(*state),
            DebugCommand::CreateUnit(unit_type, owner, pos, count) => CommandView::CreateUnit(
                *unit_type,
                *owner,
                *pos,
                *count,
            ),
            DebugCommand::KillUnit(tags) => CommandView::KillUnit(tags@),
            DebugCommand::EndGame(win) => CommandView::EndGame(*win),
            DebugCommand::SetUnitValue(tag, unit_value, value) => CommandView::SetUnitValue(
                *tag,
                *unit_value,
                *value,
            ),
        }
    }
}

/// The drawings of a list, each by its view.
pub open spec fn draw_views(drawings: Seq<DebugDraw>) -> Seq<DrawView> {
    drawings.map_values(|drawing: DebugDraw| drawing@)
}

/// The commands of a list, each by its view.
pub open spec fn command_views(commands: Seq<DebugCommand>) -> Seq<CommandView> {
    commands.map_values(|command: DebugCommand| command@)
}

/// The schema's record for a point of the world.
pub open spec fn wire_point(point: Point3) -> wire::Point {
    wire::Point { x: Some(point.x), y: Some(point.y), z: Some(point.z) }
}

/// The schema's record for a color. No color means that the engine picks its default.
pub open spec fn wire_color(color: Option<Color>) -> Option<wire::Color> {
    match color {
        Some(rgb) => Some(wire::Color { r: Some(rgb.0), g: Some(rgb.1), b: Some(rgb.2) }),
        None => None,
    }
}

/// The greatest player id that the schema's signed field holds.
pub const MAX_OWNER: u32 = 0x7fff_ffff;

/// A player id as the schema's signed field holds it: the same number. An id above
/// [`MAX_OWNER`] has no place in the field, and a command with such an owner is
/// not encoded.
pub open spec fn wire_owner(owner: u32) -> i32
    recommends
        owner <= MAX_OWNER,
{
    owner as i32
}

impl CommandView {
    /// Whether the schema has a record for the command: the owner of spawned units,
    /// where one is given, fits the schema's signed field.
    pub open spec fn encodable(self) -> bool {
        match self {
            CommandView::CreateUnit(_, Some(owner), _, _) => owner <= MAX_OWNER,
            _ => true,
        }
    }
}

/// Whether the schema has a record for each command of a list.
pub open spec fn all_encodable(commands: Seq<DebugCommand>) -> bool {
    forall|i: int| 0 <= i < commands.len() ==> (#[trigger] commands[i])@.encodable()
}

impl DrawView {
    /// The schema's record for a text, and `None` for every other drawing. A text on
    /// the screen has its position in `virtual_pos`, without a height; a text in the
    /// world has it in `world_pos`.
    pub open spec fn as_text(self) -> Option<wire::DebugTextView> {
        match self {
            DrawView::Text(text, pos, color, size) => Some(
                wire::DebugTextView {
                    color: wire_color(color),
                    text: Some(text),
                    virtual_pos: match pos {
                        DebugPos::Screen(at) => Some(
                            wire::Point { x: Some(at.0), y: Some(at.1), z: None },
                        ),
                        DebugPos::World(_) => None,
                    },
                    world_pos: match pos {
                        DebugPos::Screen(_) => None,
                        DebugPos::World(at) => Some(wire_point(at)),
                    },
                    size,
                },
            ),
            _ => None,
        }
    }

    /// The schema's record for a line, and `None` for every other drawing.
    pub open spec fn as_line(self) -> Option<wire::DebugLine> {
        match self {
            DrawView::Line(p0, p1, color) => Some(
                wire::DebugLine {
                    color: wire_color(color),
                    line: Some(wire::Line { p0: Some(wire_point(p0)), p1: Some(wire_point(p1)) }),
                },
            ),
            _ => None,
        }
    }

    /// The schema's record for a box, and `None` for every other drawing.
    pub open spec fn as_box(self) -> Option<wire::DebugBox> {
        match self {
            DrawView::Box(p0, p1, color) => Some(
                wire::DebugBox {
                    color: wire_color(color),
                    min: Some(wire_point(p0)),
                    max: Some(wire_point(p1)),
                },
            ),
            _ => None,
        }
    }

    /// The schema's record for a sphere, and `None` for every other drawing.
    pub open spec fn as_sphere(self) -> Option<wire::DebugSphere> {
        match self {
            DrawView::Sphere(center, radius, color) => Some(
                wire::DebugSphere {
                    color: wire_color(color),
                    p: Some(wire_point(center)),
                    r: Some(radius),
                },
            ),
            _ => None,
        }
    }
}

/// Picks the texts of a list of drawings.
pub open spec fn pick_text() -> spec_fn(DrawView) -> Option<wire::DebugTextView> {
    |drawing: DrawView| drawing.as_text()
}

/// Picks the lines of a list of drawings.
pub open spec fn pick_line() -> spec_fn(DrawView) -> Option<wire::DebugLine> {
    |drawing: DrawView| drawing.as_line()
}

/// Picks the boxes of a list of drawings.
pub open spec fn pick_box() -> spec_fn(DrawView) -> Option<wire::DebugBox> {
    |drawing: DrawView| drawing.as_box()
}

/// Picks the spheres of a list of drawings.
pub open spec fn pick_sphere() -> spec_fn(DrawView) -> Option<wire::DebugSphere> {
    |drawing: DrawView| drawing.as_sphere()
}

/// The schema's draw command for a list of drawings: one list per shape, each with
/// the drawings of that shape in the order of the list.
pub open spec fn encode_drawings(drawings: Seq<DrawView>) -> wire::DebugDrawView {
    wire::DebugDrawView {
        text: drawings.filter_map(pick_text()),
        lines: drawings.filter_map(pick_line()),
        boxes: drawings.filter_map(pick_box()),
        spheres: drawings.filter_map(pick_sphere()),
    }
}

/// The schema's record for one command.
pub open spec fn encode_command(command: CommandView) -> wire::DebugCommandView {
    match command {
        CommandView::Draw(drawings) => wire::DebugCommandView::Draw(encode_drawings(drawings)),
        CommandView::GameState(state) => wire::DebugCommandView::GameState(state.code()),
        CommandView::CreateUnit(unit_type, owner, pos, count) => wire::DebugCommandView::CreateUnit(
            wire::DebugCreateUnit {
                unit_type: Some(unit_type.code()),
                owner: match owner {
                    Some(id) => Some(wire_owner(id)),
                    None => None,
                },
                pos: Some(wire::Point2D { x: Some(pos.x), y: Some(pos.y) }),
                quantity: Some(count),
            },
        ),
        CommandView::KillUnit(tags) => wire::DebugCommandView::KillUnit(tags),
        CommandView::EndGame(win) => wire::DebugCommandView::EndGame(
            wire::DebugEndGame {
                end_result: if win {
                    Some(2)
                } else {
                    None
                },
            },
        ),
        CommandView::SetUnitValue(tag, unit_value, value) => wire::DebugCommandView::UnitValue(
            wire::DebugSetUnitValue {
                unit_value: Some(unit_value.code()),
                value: Some(Float::spec_from_u32(value)),
                unit_tag: Some(tag),
            },
        ),
    }
}

fn point_into_proto(point: Point3) -> (proto: wire::Point)
    ensures
        proto == wire_point(point),
{
    wire::Point { x: Some(point.x), y: Some(point.y), z: Some(point.z) }
}

fn color_into_proto(color: Option<Color>) -> (proto: Option<wire::Color>)
    ensures
        proto == wire_color(color),
{
    match color {
        Some(rgb) => Some(wire::Color { r: Some(rgb.0), g: Some(rgb.1), b: Some(rgb.2) }),
        None => None,
    }
}

fn owner_into_proto(owner: u32) -> (proto: i32)
    requires
        owner <= MAX_OWNER,
    ensures
        proto == wire_owner(owner),
{
    owner as i32
}

/// Turns the drawings of a step into the schema's draw command.
pub fn into_proto(drawings: &[DebugDraw]) -> (proto: wire::DebugDraw)
    ensures
        proto@ == encode_drawings(draw_views(drawings@)),
{
    let mut text: Vec<wire::DebugText> = Vec::new();
    let mut lines: Vec<wire::DebugLine> = Vec::new();
    let mut boxes: Vec<wire::DebugBox> = Vec::new();
    let mut spheres: Vec<wire::DebugSphere> = Vec::new();
    let ghost views = draw_views(drawings@);
    let mut i: usize = 0;
    while i < drawings.len()
        invariant
            i <= drawings.len(),
            views == draw_views(drawings@),
            text@.map_values(|text: wire::DebugText| text@) == views.take(i as int).filter_map(
                pick_text(),
            ),
            lines@ == views.take(i as int).filter_map(pick_line()),
            boxes@ == views.take(i as int).filter_map(pick_box()),
            spheres@ == views.take(i as int).filter_map(pick_sphere()),
        decreases drawings.len() - i,
    {
        proof {
            views.lemma_filter_map_take_succ(pick_text(), i as int);
            views.lemma_filter_map_take_succ(pick_line(), i as int);
            views.lemma_filter_map_take_succ(pick_box(), i as int);
            views.lemma_filter_map_take_succ(pick_sphere(), i as int);
        }
        let ghost before = text@;
        match &drawings[i] {
            DebugDraw::Text(content, pos, color, size) => {
                let (virtual_pos, world_pos) = match pos {
                    DebugPos::Screen(at) => (
                        Some(wire::Point { x: Some(at.0), y: Some(at.1), z: None }),
                        None,
                    ),
                    DebugPos::World(at) => (None, Some(point_into_proto(*at))),
                };
                let record = wire::DebugText {
                    color: color_into_proto(*color),
                    text: Some(content.clone()),
                    virtual_pos,
                    world_pos,
                    size: *size,
                };
                text.push(record);
                assert(text@.map_values(|text: wire::DebugText| text@) =~= before.map_values(
                    |text: wire::DebugText| text@,
                ).push(record@));
            },
            DebugDraw::Line(p0, p1, color) => {
                lines.push(
                    wire::DebugLine {
                        color: color_into_proto(*color),
                        line: Some(
                            wire::Line {
                                p0: Some(point_into_proto(*p0)),
                                p1: Some(point_into_proto(*p1)),
                            },
                        ),
                    },
                );
            },
            DebugDraw::Box(p0, p1, color) => {
                boxes.push(
                    wire::DebugBox {
                        color: color_into_proto(*color),
                        min: Some(point_into_proto(*p0)),
                        max: Some(point_into_proto(*p1)),
                    },
                );
            },
            DebugDraw::Sphere(center, radius, color) => {
                spheres.push(
                    wire::DebugSphere {
                        color: color_into_proto(*color),
                        p: Some(point_into_proto(*center)),
                        r: Some(*radius),
                    },
                );
            },
        }
        i += 1;
    }
    assert(views.take(i as int) =~= views);
    wire::DebugDraw { text, lines, boxes, spheres }
}

impl DebugCommand {
    /// Whether the schema has a record for the command.
    pub fn is_encodable(&self) -> (encodable: bool)
        ensures
            encodable == self@.encodable(),
    {
        match self {
            DebugCommand::CreateUnit(_, Some(owner), _, _) => *owner <= MAX_OWNER,
            _ => true,
        }
    }

    /// Turns the command into the schema's record.
    pub fn into_proto(&self) -> (proto: wire::DebugCommand)
        requires
            self@.encodable(),
        ensures
            proto@ == encode_command(self@),
    {
        match self {
            DebugCommand::Draw(drawings) => wire::DebugCommand::Draw(
                self::into_proto(drawings.as_slice()),
            ),
            DebugCommand::GameState(state) => wire::DebugCommand::GameState(state.into_proto()),
            DebugCommand::CreateUnit(unit_type, owner, pos, count) => {
                let owner = match owner {
                    Some(id) => Some(owner_into_proto(*id)),
                    None => None,
                };
                wire::DebugCommand::CreateUnit(
                    wire::DebugCreateUnit {
                        unit_type: Some(unit_type.to_u32()),
                        owner,
                        pos: Some(wire::Point2D { x: Some(pos.x), y: Some(pos.y) }),
                        quantity: Some(*count),
                    },
                )
            },
            DebugCommand::KillUnit(tags) => wire::DebugCommand::KillUnit(
                wire::DebugKillUnit { tag: tags.clone() },
            ),
            DebugCommand::EndGame(win) => wire::DebugCommand::EndGame(
                wire::DebugEndGame {
                    end_result: if *win {
                        Some(2)
                    } else {
                        None
                    },
                },
            ),
            DebugCommand::SetUnitValue(tag, unit_value, value) => wire::DebugCommand::UnitValue(
                wire::DebugSetUnitValue {
                    unit_value: Some(unit_value.into_proto()),
                    value: Some(Float::from_u32(*value)),
                    unit_tag: Some(*tag),
                },
            ),
        }
    }
}

/// Turns a batch into the schema's records, one for each command and in the same order.
pub fn encode_commands(commands: &[DebugCommand]) -> (records: Vec<wire::DebugCommand>)
    requires
        all_encodable(commands@),
    ensures
        records@.len() == commands@.len(),
        forall|i: int|
            0 <= i < commands@.len() ==> (#[trigger] records@[i])@ == encode_command(commands@[i]@),
{
    let mut records: Vec<wire::DebugCommand> = Vec::new();
    let mut i: usize = 0;
    while i < commands.len()
        invariant
            i <= commands.len(),
            all_encodable(commands@),
            records@.len() == i,
            forall|j: int| 0 <= j < i ==> (#[trigger] records@[j])@ == encode_command(commands@[j]@),
        decreases commands.len() - i,
    {
        records.push(commands[i].into_proto());
        i += 1;
    }
    records
}

/// What a [`Debugger`] holds.
pub struct DebuggerView {
    /// The batch: the directives in the order they were issued, and behind them the
    /// draw and kill commands of the batches handed out since the last clearing.
    pub commands: Seq<CommandView>,
    /// The drawings queued since the last batch, in the order they were queued.
    pub drawings: Seq<DrawView>,
    /// The tags queued for killing since the last batch.
    pub kill_tags: Set<u64>,
}

impl DebuggerView {
    /// The schema has a record for every command of the batch. This holds of a new
    /// debugger, and every operation keeps it.
    pub open spec fn wf(self) -> bool {
        forall|i: int| 0 <= i < self.commands.len() ==> (#[trigger] self.commands[i]).encodable()
    }

    /// Nothing queued.
    pub open spec fn empty() -> DebuggerView {
        DebuggerView { commands: Seq::empty(), drawings: Seq::empty(), kill_tags: Set::empty() }
    }

    /// One more directive at the end of the batch.
    pub open spec fn with_command(self, command: CommandView) -> DebuggerView {
        DebuggerView { commands: self.commands.push(command), ..self }
    }

    /// One more drawing at the end of the queue.
    pub open spec fn with_drawing(self, drawing: DrawView) -> DebuggerView {
        DebuggerView { drawings: self.drawings.push(drawing), ..self }
    }

    /// `tags` holds each queued tag once, in some order.
    pub open spec fn lists_kill_tags(self, tags: Seq<u64>) -> bool {
        tags.no_duplicates() && tags.to_set() == self.kill_tags
    }

    /// The state after a batch was handed out with the queued tags in the order of
    /// `tags`: the queued drawings, if any, became one draw command at the end of the
    /// batch, and the queued tags, if any, one kill command behind it.
    pub open spec fn flushed(self, tags: Seq<u64>) -> DebuggerView {
        let drawn = if self.drawings.len() > 0 {
            self.commands.push(CommandView::Draw(self.drawings))
        } else {
            self.commands
        };
        let killed = if tags.len() > 0 {
            drawn.push(CommandView::KillUnit(tags))
        } else {
            drawn
        };
        DebuggerView { commands: killed, drawings: Seq::empty(), kill_tags: Set::empty() }
    }

    /// `after` is the state that handing out a batch leaves behind.
    pub open spec fn flushes_to(self, after: DebuggerView) -> bool {
        exists|tags: Seq<u64>| #[trigger] self.lists_kill_tags(tags) && after == self.flushed(tags)
    }

    /// The state after the batch was dropped. What was queued since stays queued.
    pub open spec fn cleared(self) -> DebuggerView {
        DebuggerView { commands: Seq::empty(), ..self }
    }
}

/// Queueing a directive that the schema has a record for, handing out a batch and
/// clearing keep a batch for whose every command the schema has a record.
pub proof fn batch_stays_encodable(before: DebuggerView, after: DebuggerView, command: CommandView)
    requires
        before.wf(),
    ensures
        DebuggerView::empty().wf(),
        command.encodable() ==> before.with_command(command).wf(),
        before.cleared().wf(),
        before.flushes_to(after) ==> after.wf(),
{
    if before.flushes_to(after) {
        let tags = choose|tags: Seq<u64>| #[trigger]
            before.lists_kill_tags(tags) && after == before.flushed(tags);
        assert forall|i: int| 0 <= i < after.commands.len() implies (
        #[trigger] after.commands[i]).encodable() by {
            if i < before.commands.len() {
                assert(before.commands[i].encodable());
            }
        }
    }
    if command.encodable() {
        assert forall|i: int| 0 <= i < before.with_command(command).commands.len() implies (
        #[trigger] before.with_command(command).commands[i]).encodable() by {
            if i < before.commands.len() {
                assert(before.commands[i].encodable());
            }
        }
    }
}

/// Handing out a batch while nothing is queued leaves the state as it was: from a
/// debugger that holds nothing, the batch is empty.
pub proof fn flush_with_nothing_queued(before: DebuggerView, after: DebuggerView)
    requires
        before.flushes_to(after),
        before.drawings.len() == 0,
        before.kill_tags == Set::<u64>::empty(),
    ensures
        after == before,
        before == DebuggerView::empty() ==> after.commands.len() == 0,
{
    let tags = choose|tags: Seq<u64>| #[trigger]
        before.lists_kill_tags(tags) && after == before.flushed(tags);
    if tags.len() > 0 {
        assert(tags.to_set().contains(tags[0]));
    }
    assert(after.drawings =~= before.drawings);
}

/// Clearing twice in a row is clearing once.
pub proof fn clearing_is_idempotent(state: DebuggerView)
    ensures
        state.cleared().cleared() == state.cleared(),
        state.cleared().commands.len() == 0,
{
}

/// A batch keeps what it held, in the same order, and gains at most two commands at
/// its end: first one draw command with all queued drawings in the order they were
/// queued, if there are any, and then one kill command, if any tag is queued.
pub proof fn flush_appends_merged_commands(before: DebuggerView, after: DebuggerView)
    requires
        before.flushes_to(after),
    ensures
        before.commands.is_prefix_of(after.commands),
        after.commands.len() == before.commands.len() + (if before.drawings.len() > 0 {
            1int
        } else {
            0int
        }) + (if before.kill_tags == Set::<u64>::empty() {
            0int
        } else {
            1int
        }),
        before.drawings.len() > 0 ==> after.commands[before.commands.len() as int]
            == CommandView::Draw(before.drawings),
        before.kill_tags != Set::<u64>::empty() ==> after.commands.last() is KillUnit,
{
    let tags = choose|tags: Seq<u64>| #[trigger]
        before.lists_kill_tags(tags) && after == before.flushed(tags);
    if tags.len() > 0 {
        assert(tags.to_set().contains(tags[0]));
    } else {
        assert(tags.to_set() =~= Set::empty());
    }
}

/// The kill command of a batch carries the queued tags as a set: each of them once,
/// and nothing else.
pub proof fn kill_command_carries_the_set(before: DebuggerView, after: DebuggerView)
    requires
        before.flushes_to(after),
        before.kill_tags != Set::<u64>::empty(),
    ensures
        after.commands.last() is KillUnit,
        after.commands.last()->KillUnit_0.no_duplicates(),
        after.commands.last()->KillUnit_0.to_set() == before.kill_tags,
        after.commands.last()->KillUnit_0.len() == before.kill_tags.len(),
        forall|i: int|
            0 <= i < after.commands.len() - 1 ==> !(#[trigger] after.commands[i] is KillUnit)
                || i < before.commands.len(),
{
    let tags = choose|tags: Seq<u64>| #[trigger]
        before.lists_kill_tags(tags) && after == before.flushed(tags);
    if tags.len() == 0 {
        assert(tags.to_set() =~= Set::empty());
    }
    tags.unique_seq_to_set();
}

/// Collects the debug commands of a step.
#[derive(Debug)]
pub struct Debugger {
    debug_commands: Vec<DebugCommand>,
    debug_drawings: Vec<DebugDraw>,
    kill_tags: TagSet,
}

impl View for Debugger {
    type V = DebuggerView;

    closed spec fn view(&self) -> DebuggerView {
        DebuggerView {
            commands: command_views(self.debug_commands@),
            drawings: draw_views(self.debug_drawings@),
            kill_tags: self.kill_tags@,
        }
    }
}

impl Default for Debugger {
    fn default() -> (debugger: Debugger)
        ensures
            debugger@ == DebuggerView::empty(),
    {
        Debugger::new()
    }
}

impl Debugger {
    /// A debugger with nothing queued.
    pub fn new() -> (debugger: Debugger)
        ensures
            debugger@ == DebuggerView::empty(),
    {
        let debugger = Debugger {
            debug_commands: Vec::new(),
            debug_drawings: Vec::new(),
            kill_tags: FxHashSet::default(),
        };
        assert(debugger@.commands =~= Seq::empty());
        assert(debugger@.drawings =~= Seq::empty());
        debugger
    }

    /// Hands out the batch of the step. The queued drawings become one draw command
    /// at the end of the batch and the queued tags one kill command behind it; both
    /// queues are left empty. The batch stays until [`Debugger::clear_commands`].
    pub fn get_commands(&mut self) -> (commands: &[DebugCommand])
        ensures
            old(self)@.flushes_to(final(self)@),
            command_views(commands@) == final(self)@.commands,
            old(self)@.wf() ==> all_encodable(commands@),
    {
        let ghost before = self@;
        let ghost mut tags: Seq<u64> = Seq::empty();
        if !self.debug_drawings.is_empty() {
            let mut drawings: Vec<DebugDraw> = Vec::new();
            std::mem::swap(&mut drawings, &mut self.debug_drawings);
            let command = DebugCommand::Draw(drawings);
            self.debug_commands.push(command);
            assert(command_views(self.debug_commands@) =~= before.commands.push(command@));
        }
        assert(draw_views(self.debug_drawings@) =~= Seq::empty());
        let ghost drawn = command_views(self.debug_commands@);
        if !self.kill_tags.is_empty() {
            let drained = set_drain(&mut self.kill_tags);
            proof {
                tags = drained@;
                if tags.len() == 0 {
                    assert(tags.to_set() =~= Set::empty());
                }
            }
            let command = DebugCommand::KillUnit(drained);
            self.debug_commands.push(command);
            assert(command_views(self.debug_commands@) =~= drawn.push(command@));
        } else {
            assert(tags.to_set() =~= Set::empty());
            assert(before.kill_tags =~= Set::empty());
        }
        assert(before.lists_kill_tags(tags));
        assert(self@ == before.flushed(tags));
        proof {
            if before.wf() {
                assert forall|i: int| 0 <= i < self.debug_commands@.len() implies (
                #[trigger] self.debug_commands@[i])@.encodable() by {
                    assert(command_views(self.debug_commands@)[i] == self.debug_commands@[i]@);
                    if i < before.commands.len() {
                        assert(before.commands[i].encodable());
                    }
                }
            }
        }
        self.debug_commands.as_slice()
    }

    /// Drops the batch, after it was sent. What was queued since the batch was
    /// handed out stays queued.
    pub fn clear_commands(&mut self)
        ensures
            final(self)@ == old(self)@.cleared(),
    {
        self.debug_commands.clear();
        assert(command_views(self.debug_commands@) =~= Seq::empty());
    }

    fn push_command(&mut self, command: DebugCommand)
        ensures
            final(self)@ == old(self)@.with_command(command@),
    {
        let ghost before = self@;
        self.debug_commands.push(command);
        assert(command_views(self.debug_commands@) =~= before.commands.push(command@));
    }

    fn push_drawing(&mut self, drawing: DebugDraw)
        ensures
            final(self)@ == old(self)@.with_drawing(drawing@),
    {
        let ghost before = self@;
        self.debug_drawings.push(drawing);
        assert(draw_views(self.debug_drawings@) =~= before.drawings.push(drawing@));
    }

    fn draw_text(&mut self, text: &str, pos: DebugPos, color: Option<Color>, size: Option<u32>)
        ensures
            final(self)@ == old(self)@.with_drawing(DrawView::Text(text@, pos, color, size)),
    {
        self.push_drawing(DebugDraw::Text(text.to_owned(), pos, color, size));
    }

    /// Draws text in the game world.
    pub fn draw_text_world(&mut self, text: &str, pos: Point3, color: Option<Color>, size: Option<u32>)
        ensures
            final(self)@ == old(self)@.with_drawing(
                DrawView::Text(text@, DebugPos::World(pos), color, size),
            ),
    {
        self.draw_text(text, DebugPos::World(pos), color, size);
    }

    /// Draws text on the screen, in its upper left corner where no position is given.
    pub fn draw_text_screen(
        &mut self,
        text: &str,
        pos: Option<ScreenPos>,
        color: Option<Color>,
        size: Option<u32>,
    )
        ensures
            final(self)@ == old(self)@.with_drawing(
                DrawView::Text(
                    text@,
                    DebugPos::Screen(
                        match pos {
                            Some(at) => at,
                            None => (Float { bits: 0 }, Float { bits: 0 }),
                        },
                    ),
                    color,
                    size,
                ),
            ),
    {
        let at = match pos {
            Some(at) => at,
            None => (Float::zero(), Float::zero()),
        };
        self.draw_text(text, DebugPos::Screen(at), color, size);
    }

    /// Draws a line in the game world from `p0` to `p1`.
    pub fn draw_line(&mut self, p0: Point3, p1: Point3, color: Option<Color>)
        ensures
            final(self)@ == old(self)@.with_drawing(DrawView::Line(p0, p1, color)),
    {
        self.push_drawing(DebugDraw::Line(p0, p1, color));
    }

    /// Draws a box in the game world with the opposite corners `p0` and `p1`.
    pub fn draw_box(&mut self, p0: Point3, p1: Point3, color: Option<Color>)
        ensures
            final(self)@ == old(self)@.with_drawing(DrawView::Box(p0, p1, color)),
    {
        self.push_drawing(DebugDraw::Box(p0, p1, color));
    }

    /// Draws a sphere in the game world.
    pub fn draw_sphere(&mut self, pos: Point3, radius: Float, color: Option<Color>)
        ensures
            final(self)@ == old(self)@.with_drawing(DrawView::Sphere(pos, radius, color)),
    {
        self.push_drawing(DebugDraw::Sphere(pos, radius, color));
    }

    /// Spawns units, one directive for each request, in the order of `cmds`. An
    /// owner, where one is given, is a player id of at most [`MAX_OWNER`].
    pub fn create_units(&mut self, cmds: &[CreateUnits])
        requires
            forall|i: int|
                0 <= i < cmds@.len() ==> ((#[trigger] cmds@[i]).1 matches Some(owner)
                    ==> owner <= MAX_OWNER),
        ensures
            final(self)@ == (DebuggerView {
                commands: old(self)@.commands + cmds@.map_values(
                    |cmd: CreateUnits| CommandView::CreateUnit(cmd.0, cmd.1, cmd.2, cmd.3),
                ),
                ..old(self)@
            }),
            old(self)@.wf() ==> final(self)@.wf(),
    {
        let ghost before = self@;
        let ghost added = cmds@.map_values(
            |cmd: CreateUnits| CommandView::CreateUnit(cmd.0, cmd.1, cmd.2, cmd.3),
        );
        let mut i: usize = 0;
        assert(before.commands + added.take(0) =~= before.commands);
        while i < cmds.len()
            invariant
                i <= cmds.len(),
                added == cmds@.map_values(
                    |cmd: CreateUnits| CommandView::CreateUnit(cmd.0, cmd.1, cmd.2, cmd.3),
                ),
                forall|j: int|
                    0 <= j < cmds@.len() ==> ((#[trigger] cmds@[j]).1 matches Some(owner)
                        ==> owner <= MAX_OWNER),
                self@ == (DebuggerView {
                    commands: before.commands + added.take(i as int),
                    ..before
                }),
            decreases cmds.len() - i,
        {
            let cmd = cmds[i];
            self.push_command(DebugCommand::CreateUnit(cmd.0, cmd.1, cmd.2, cmd.3));
            assert(before.commands + added.take(i + 1) =~= (before.commands + added.take(
                i as int,
            )).push(added[i as int]));
            i += 1;
        }
        assert(added.take(i as int) =~= added);
        proof {
            if before.wf() {
                assert forall|j: int| 0 <= j < self@.commands.len() implies (
                #[trigger] self@.commands[j]).encodable() by {
                    if j < before.commands.len() {
                        assert(before.commands[j].encodable());
                    } else {
                        assert(self@.commands[j] == added[j - before.commands.len()]);
                        assert(cmds@[j - before.commands.len()].1 matches Some(owner)
                            ==> owner <= MAX_OWNER);
                    }
                }
            }
        }
    }

    /// Kills the units with the given tags. A tag queued twice is queued once.
    pub fn kill_units(&mut self, tags: &[u64])
        ensures
            final(self)@ == (DebuggerView {
                kill_tags: old(self)@.kill_tags.union(tags@.to_set()),
                ..old(self)@
            }),
    {
        let ghost before = self@;
        let mut i: usize = 0;
        assert(before.kill_tags.union(tags@.take(0).to_set()) =~= before.kill_tags);
        while i < tags.len()
            invariant
                i <= tags.len(),
                self@ == (DebuggerView {
                    kill_tags: before.kill_tags.union(tags@.take(i as int).to_set()),
                    ..before
                }),
            decreases tags.len() - i,
        {
            let _ = set_insert(&mut self.kill_tags, tags[i]);
            proof {
                assert(tags@.take(i + 1) =~= tags@.take(i as int).push(tags@[i as int]));
                tags@.take(i as int).lemma_push_to_set_commute(tags@[i as int]);
                assert(before.kill_tags.union(tags@.take(i + 1).to_set())
                    =~= before.kill_tags.union(tags@.take(i as int).to_set()).insert(
                    tags@[i as int],
                ));
            }
            i += 1;
        }
        assert(tags@.take(i as int) =~= tags@);
    }

    /// Sets values of units, one directive for each request, in the order of `cmds`.
    pub fn set_unit_values(&mut self, cmds: &[SetUnitValue])
        ensures
            final(self)@ == (DebuggerView {
                commands: old(self)@.commands + cmds@.map_values(
                    |cmd: SetUnitValue| CommandView::SetUnitValue(cmd.0, cmd.1, cmd.2),
                ),
                ..old(self)@
            }),
    {
        let ghost before = self@;
        let ghost added = cmds@.map_values(
            |cmd: SetUnitValue| CommandView::SetUnitValue(cmd.0, cmd.1, cmd.2),
        );
        let mut i: usize = 0;
        assert(before.commands + added.take(0) =~= before.commands);
        while i < cmds.len()
            invariant
                i <= cmds.len(),
                added == cmds@.map_values(
                    |cmd: SetUnitValue| CommandView::SetUnitValue(cmd.0, cmd.1, cmd.2),
                ),
                self@ == (DebuggerView {
                    commands: before.commands + added.take(i as int),
                    ..before
                }),
            decreases cmds.len() - i,
        {
            let cmd = cmds[i];
            self.push_command(DebugCommand::SetUnitValue(cmd.0, cmd.1, cmd.2));
            assert(before.commands + added.take(i + 1) =~= (before.commands + added.take(
                i as int,
            )).push(added[i as int]));
            i += 1;
        }
        assert(added.take(i as int) =~= added);
    }

    /// Ends the game with victory for the bot.
    pub fn win_game(&mut self)
        ensures
            final(self)@ == old(self)@.with_command(CommandView::EndGame(true)),
    {
        self.push_command(DebugCommand::EndGame(true));
    }

    /// Ends the game with defeat for the bot.
    pub fn end_game(&mut self)
        ensures
            final(self)@ == old(self)@.with_command(CommandView::EndGame(false)),
    {
        self.push_command(DebugCommand::EndGame(false));
    }

    /// Disables the fog of war, so that the whole map is visible.
    pub fn show_map(&mut self)
        ensures
            final(self)@ == old(self)@.with_command(
                CommandView::GameState(DebugGameState::ShowMap),
            ),
    {
        self.push_command(DebugCommand::GameState(DebugGameState::ShowMap));
    }

    /// Gives control of the enemy's units.
    pub fn control_enemy(&mut self)
        ensures
            final(self)@ == old(self)@.with_command(
                CommandView::GameState(DebugGameState::ControlEnemy),
            ),
    {
        self.push_command(DebugCommand::GameState(DebugGameState::ControlEnemy));
    }

    /// Disables the use of supply.
    pub fn cheat_supply(&mut self)
        ensures
            final(self)@ == old(self)@.with_command(
                CommandView::GameState(DebugGameState::Food),
            ),
    {
        self.push_command(DebugCommand::GameState(DebugGameState::Food));
    }

    /// Makes all units, structures and upgrades free.
    pub fn cheat_free_build(&mut self)
        ensures
            final(self)@ == old(self)@.with_command(
                CommandView::GameState(DebugGameState::Free),
            ),
    {
        self.push_command(DebugCommand::GameState(DebugGameState::Free));
    }

    /// Gives 5000 minerals and gas to the bot.
    pub fn cheat_resources(&mut self)
        ensures
            final(self)@ == old(self)@.with_command(
                CommandView::GameState(DebugGameState::AllResources),
            ),
    {
        self.push_command(DebugCommand::GameState(DebugGameState::AllResources));
    }

    /// Gives 5000 minerals to the bot.
    pub fn cheat_minerals(&mut self)
        ensures
            final(self)@ == old(self)@.with_command(
                CommandView::GameState(DebugGameState::Minerals),
            ),
    {
        self.push_command(DebugCommand::GameState(DebugGameState::Minerals));
    }

    /// Gives 5000 gas to the bot.
    pub fn cheat_gas(&mut self)
        ensures
            final(self)@ == old(self)@.with_command(
                CommandView::GameState(DebugGameState::Gas),
            ),
    {
        self.push_command(DebugCommand::GameState(DebugGameState::Gas));
    }

    /// Makes the bot's units invincible and raises their damage.
    pub fn cheat_god(&mut self)
        ensures
            final(self)@ == old(self)@.with_command(
                CommandView::GameState(DebugGameState::God),
            ),
    {
        self.push_command(DebugCommand::GameState(DebugGameState::God));
    }

    /// Removes the cooldown of the abilities of the bot's units.
    pub fn cheat_cooldown(&mut self)
        ensures
            final(self)@ == old(self)@.with_command(
                CommandView::GameState(DebugGameState::Cooldown),
            ),
    {
        self.push_command(DebugCommand::GameState(DebugGameState::Cooldown));
    }

    /// Removes all tech requirements for the bot.
    pub fn cheat_tech_tree(&mut self)
        ensures
            final(self)@ == old(self)@.with_command(
                CommandView::GameState(DebugGameState::TechTree),
            ),
    {
        self.push_command(DebugCommand::GameState(DebugGameState::TechTree));
    }

    /// Researches all upgrades on the first use, raises the level of damage and
    /// armor upgrades on the second and third, and takes everything back on the fourth.
    pub fn cheat_upgrades(&mut self)
        ensures
            final(self)@ == old(self)@.with_command(
                CommandView::GameState(DebugGameState::Upgrade),
            ),
    {
        self.push_command(DebugCommand::GameState(DebugGameState::Upgrade));
    }

    /// Speeds up the making of units, structures and upgrades.
    pub fn cheat_fast_build(&mut self)
        ensures
            final(self)@ == old(self)@.with_command(
                CommandView::GameState(DebugGameState::FastBuild),
            ),
    {
        self.push_command(DebugCommand::GameState(DebugGameState::FastBuild));
    }
}

} // verus!
