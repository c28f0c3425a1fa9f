//! The world around the player: two walls, and the stream of obstacles that
//! appear below the falling player and vanish once they are out of reach.

use crate::game_states::GameState;
use crate::geometry::Vec2;
use crate::player_setup::{is_player_name, player_tag, Ragdoll};
use crate::random::{random_in_range, random_ratio, seeded_rng};
use crate::text::occurs_at;
use rand::rngs::StdRng;
use vstd::prelude::*;

verus! {

/// Least time between two spawns, in milliseconds. A spawn needs more than
/// this to have passed since the last one.
pub const MAX_SPAWN_DELTA_MS: u64 = 500;

/// On a tick on which a spawn is due, it is tried with a chance of
/// `SPAWN_CHANCE_NUMERATOR` in `SPAWN_CHANCE_DENOMINATOR`.
pub const SPAWN_CHANCE_NUMERATOR: u32 = 1;

/// See [`SPAWN_CHANCE_NUMERATOR`].
pub const SPAWN_CHANCE_DENOMINATOR: u32 = 20;

/// An obstacle more than this far above the torso is removed.
pub const OVER_PLAYER_DESPAWN: i64 = 1000;

/// A new obstacle keeps at least this vertical distance from every other.
pub const MIN_OBSTACLE_DISTANCE: i64 = 700;

/// A new obstacle appears this far below the torso.
pub const UNDER_PLAYER_SPAWN: i64 = 1000;

/// An obstacle more than this far below the spawn height is removed.
pub const UNDER_SPAWN_DESPAWN_MARGIN: i64 = 100;

/// Below this height of the torso no obstacle is spawned.
pub const MIN_SPAWN_HEIGHT: i64 = -4000;

/// Left edge of the band in which obstacles appear.
pub const OBSTACLE_X_MIN: i32 = -295;

/// Right edge of the band in which obstacles appear.
pub const OBSTACLE_X_MAX: i32 = 295;

/// Least width and height of an obstacle.
pub const OBSTACLE_SIZE_MIN: i32 = 120;

/// Largest width and height of an obstacle.
pub const OBSTACLE_SIZE_MAX: i32 = 180;

/// Every colour channel of an obstacle starts from this value, in
/// thousandths.
pub const OBSTACLE_BASE_COLOR: i64 = 300;

/// A colour channel of an obstacle differs from the base by less than this
/// or, downwards, by just this, in thousandths.
pub const OBSTACLE_COLOR_VARIATION: i64 = 100;

/// Whether obstacles are grey: all three channels take the red one's value.
pub const OBSTACLE_GRAYSCALE: bool = true;

/// How strongly gravity pulls on an obstacle, in thousandths of its pull on
/// the player.
pub const OBSTACLE_GRAVITY_SCALE: u32 = 100;

/// Where the walls stand, to the left and to the right of the origin.
pub const WALL_DISTANCE: i64 = 300;

/// A fixed wall at the side of the shaft.
#[derive(Clone, Copy, Debug, PartialEq, Eq, Structural)]
pub struct Wall {
    /// Centre of the wall.
    pub position: Vec2,
    pub half_width: i64,
    pub half_height: i64,
    /// Friction coefficient, in thousandths. Where a wall touches another
    /// body, the smaller coefficient of the two counts.
    pub friction: u32,
}

impl Wall {
    /// The identity string of every wall.
    pub open spec fn spec_name() -> Seq<char> {
        "wall"@
    }

    /// The identity string of every wall.
    pub fn name(&self) -> (name: &'static str)
        ensures
            name@ == Wall::spec_name(),
    {
        "wall"
    }
}

/// The wall that stands at the horizontal position `x`: a tall, thin,
/// frictionless box.
pub open spec fn wall_at(x: int) -> Wall {
    Wall {
        position: Vec2 { x: x as i64, y: 0 },
        half_width: 10,
        half_height: 7500,
        friction: 0,
    }
}

/// The two walls of the shaft, the left one first.
pub fn setup_environment() -> (walls: Vec<Wall>)
    ensures
        walls@ == seq![wall_at(-WALL_DISTANCE), wall_at(WALL_DISTANCE as int)],
{
    let mut walls: Vec<Wall> = Vec::new();
    walls.push(
        Wall {
            position: Vec2 { x: -WALL_DISTANCE, y: 0 },
            half_width: 10,
            half_height: 7500,
            friction: 0,
        },
    );
    walls.push(
        Wall {
            position: Vec2 { x: WALL_DISTANCE, y: 0 },
            half_width: 10,
            half_height: 7500,
            friction: 0,
        },
    );
    walls
}

/// The outline of an obstacle.
#[derive(Clone, Copy, Debug, PartialEq, Eq, Structural)]
pub enum ObstacleShape {
    /// A box of the obstacle's width and height.
    Rectangle,
    /// A disc whose diameter is the obstacle's width.
    Circle,
    /// A triangle with its tip up, as wide and as high as the obstacle.
    Triangle,
}

/// A colour, each channel in thousandths.
#[derive(Clone, Copy, Debug, PartialEq, Eq, Structural)]
pub struct Color {
    pub red: i64,
    pub green: i64,
    pub blue: i64,
}

/// An obstacle: a body that drifts in the player's way.
#[derive(Clone, Copy, Debug, PartialEq, Eq, Structural)]
pub struct ObstacleObject {
    /// The body's handle in the physics world. The library never reads it:
    /// it is 0 on a new obstacle, for the caller to fill in.
    pub handle: u64,
    pub shape: ObstacleShape,
    /// Centre of the body.
    pub position: Vec2,
    pub width: i64,
    pub height: i64,
    /// In degrees. A circle is never rotated.
    pub rotation: i64,
    pub color: Color,
    /// In thousandths.
    pub gravity_scale: u32,
}

impl ObstacleObject {
    /// The identity string of the obstacle. It tells the shape, and that the
    /// body is no part of the player.
    pub open spec fn spec_name(self) -> Seq<char> {
        match self.shape {
            ObstacleShape::Rectangle => "obstacle_rectangular"@,
            ObstacleShape::Circle => "obstacle_round"@,
            ObstacleShape::Triangle => "obstacle_triangular"@,
        }
    }

    /// The identity string of the obstacle.
    pub fn name(&self) -> (name: &'static str)
        ensures
            name@ == self.spec_name(),
    {
        match self.shape {
            ObstacleShape::Rectangle => "obstacle_rectangular",
            ObstacleShape::Circle => "obstacle_round",
            ObstacleShape::Triangle => "obstacle_triangular",
        }
    }
}

/// The clock and the generator behind the spawning of obstacles. Both live as
/// long as the program and are carried over from round to round.
#[derive(Debug)]
pub struct ObstaclesData {
    /// When the last obstacle was spawned, in milliseconds.
    pub last_spawned: u64,
    /// The generator that decides whether, where and what to spawn.
    pub rng: StdRng,
}

impl ObstaclesData {
    /// A clock that has last spawned at `now_ms`, with a generator seeded
    /// with `seed`. The same seed gives the same obstacles.
    pub fn new(seed: u64, now_ms: u64) -> (data: ObstaclesData)
        ensures
            data.last_spawned == now_ms,
    {
        ObstaclesData { last_spawned: now_ms, rng: seeded_rng(seed) }
    }
}

/// Whether enough time has passed at `now` since the spawn at
/// `last_spawned`. A clock that has run backwards makes no spawn due.
pub open spec fn spawn_due(last_spawned: int, now: int) -> bool {
    now - last_spawned > MAX_SPAWN_DELTA_MS
}

/// The height at which an obstacle is spawned when the torso is at `torso_y`.
pub open spec fn spawn_height(torso_y: int) -> int {
    torso_y - UNDER_PLAYER_SPAWN
}

/// Whether two heights are less than the least distance apart. Only the
/// vertical distance counts, and it is compared by its square.
pub open spec fn too_close(y: int, other_y: int) -> bool {
    (y - other_y) * (y - other_y) < MIN_OBSTACLE_DISTANCE * MIN_OBSTACLE_DISTANCE
}

/// Whether an obstacle may be placed below a torso at `torso_y`: the torso
/// has not fallen below the floor for spawning, and no obstacle is too close
/// to the new one's height.
pub open spec fn spawn_allowed(obstacles: Seq<ObstacleObject>, torso_y: int) -> bool {
    &&& torso_y >= MIN_SPAWN_HEIGHT
    &&& forall|i: int|
        0 <= i < obstacles.len() ==> !too_close(
            (#[trigger] obstacles[i]).position.y as int,
            spawn_height(torso_y),
        )
}

/// Whether an obstacle is spawned on a tick. One is spawned just when a
/// spawn is due, the trial of the tick has succeeded, and a spawn is allowed
/// among the obstacles as they stand.
pub open spec fn spawn_decision(
    last_spawned: int,
    now: int,
    trial: bool,
    obstacles: Seq<ObstacleObject>,
    torso_y: int,
) -> bool {
    &&& spawn_due(last_spawned, now)
    &&& trial
    &&& spawn_allowed(obstacles, torso_y)
}

/// Whether an obstacle at height `y` has left the window around a torso at
/// `torso_y`: it is far above it, or too far below it to be reached. An
/// obstacle right at an edge of the window is still inside.
pub open spec fn leaves_window(y: int, torso_y: int) -> bool {
    ||| y > torso_y + OVER_PLAYER_DESPAWN
    ||| y < torso_y - UNDER_PLAYER_SPAWN - UNDER_SPAWN_DESPAWN_MARGIN
}

/// The test for the obstacles that have left the window around a torso at
/// `torso_y`.
pub open spec fn leaving(torso_y: int) -> spec_fn(ObstacleObject) -> bool {
    |obstacle: ObstacleObject| leaves_window(obstacle.position.y as int, torso_y)
}

/// The test for the obstacles that are still in the window around a torso at
/// `torso_y`.
pub open spec fn staying(torso_y: int) -> spec_fn(ObstacleObject) -> bool {
    |obstacle: ObstacleObject| !leaves_window(obstacle.position.y as int, torso_y)
}

/// Whether any two obstacles keep the least distance from each other.
pub open spec fn well_spaced(obstacles: Seq<ObstacleObject>) -> bool {
    forall|i: int, j: int|
        0 <= i < j < obstacles.len() ==> !too_close(
            (#[trigger] obstacles[i]).position.y as int,
            (#[trigger] obstacles[j]).position.y as int,
        )
}

/// Whether enough time has passed at `now_ms` since the last spawn.
pub fn is_spawn_due(last_spawned: u64, now_ms: u64) -> (due: bool)
    ensures
        due == spawn_due(last_spawned as int, now_ms as int),
{
    now_ms > last_spawned && now_ms - last_spawned > MAX_SPAWN_DELTA_MS
}

/// Whether two heights are less than the least distance apart.
pub fn is_too_close(y: i64, other_y: i64) -> (close: bool)
    ensures
        close == too_close(y as int, other_y as int),
{
    let distance: i128 = if y >= other_y {
        y as i128 - other_y as i128
    } else {
        other_y as i128 - y as i128
    };
    proof {
        let d = distance as int;
        let m = MIN_OBSTACLE_DISTANCE as int;
        assert((y - other_y) * (y - other_y) == d * d) by (nonlinear_arith)
            requires
                d == y - other_y || d == other_y - y,
        ;
        assert((d < m) == (d * d < m * m)) by (nonlinear_arith)
            requires
                0 <= d,
                0 < m,
        ;
    }
    distance < MIN_OBSTACLE_DISTANCE as i128
}

/// Whether an obstacle may be placed below a torso at `torso_y`.
pub fn is_spawn_allowed(obstacles: &Vec<ObstacleObject>, torso_y: i64) -> (allowed: bool)
    ensures
        allowed == spawn_allowed(obstacles@, torso_y as int),
{
    if torso_y < MIN_SPAWN_HEIGHT {
        return false;
    }
    let new_y: i64 = torso_y - UNDER_PLAYER_SPAWN;
    let mut i: usize = 0;
    while i < obstacles.len()
        invariant
            i <= obstacles.len(),
            new_y == spawn_height(torso_y as int),
            forall|k: int|
                0 <= k < i ==> !too_close(
                    (#[trigger] obstacles@[k]).position.y as int,
                    spawn_height(torso_y as int),
                ),
        decreases obstacles.len() - i,
    {
        if is_too_close(obstacles[i].position.y, new_y) {
            return false;
        }
        i += 1;
    }
    true
}

/// The chance with which a spawn is tried on a tick on which one is due, as
/// numerator and denominator.
pub fn spawn_chance() -> (chance: (u32, u32))
    ensures
        chance == (SPAWN_CHANCE_NUMERATOR, SPAWN_CHANCE_DENOMINATOR),
        chance == (1u32, 20u32),
{
    (SPAWN_CHANCE_NUMERATOR, SPAWN_CHANCE_DENOMINATOR)
}

/// Whether an obstacle is spawned on this tick, given the outcome of the
/// tick's trial.
pub fn spawn_decided(
    last_spawned: u64,
    now_ms: u64,
    trial: bool,
    obstacles: &Vec<ObstacleObject>,
    torso_y: i64,
) -> (spawn: bool)
    ensures
        spawn == spawn_decision(
            last_spawned as int,
            now_ms as int,
            trial,
            obstacles@,
            torso_y as int,
        ),
{
    is_spawn_due(last_spawned, now_ms) && trial && is_spawn_allowed(obstacles, torso_y)
}

/// Whether an obstacle at height `y` has left the window around a torso at
/// `torso_y`.
pub fn has_left_window(y: i64, torso_y: i64) -> (left: bool)
    ensures
        left == leaves_window(y as int, torso_y as int),
{
    let height: i128 = y as i128;
    let above: i128 = torso_y as i128 + OVER_PLAYER_DESPAWN as i128;
    let below: i128 = torso_y as i128 - UNDER_PLAYER_SPAWN as i128
        - UNDER_SPAWN_DESPAWN_MARGIN as i128;
    height > above || height < below
}

/// Removes the obstacles that have left the window around a torso at
/// `torso_y`, and hands them back. Both those that stay and those that go
/// keep their order.
pub fn despawn_out_of_window(
    obstacles: &mut Vec<ObstacleObject>,
    torso_y: i64,
) -> (despawned: Vec<ObstacleObject>)
    ensures
        final(obstacles)@ == old(obstacles)@.filter(staying(torso_y as int)),
        despawned@ == old(obstacles)@.filter(leaving(torso_y as int)),
{
    let mut kept: Vec<ObstacleObject> = Vec::new();
    let mut gone: Vec<ObstacleObject> = Vec::new();
    let mut i: usize = 0;
    proof {
        reveal(Seq::filter);
    }
    while i < obstacles.len()
        invariant
            i <= obstacles.len(),
            kept@ == obstacles@.subrange(0, i as int).filter(staying(torso_y as int)),
            gone@ == obstacles@.subrange(0, i as int).filter(leaving(torso_y as int)),
        decreases obstacles.len() - i,
    {
        let obstacle: ObstacleObject = obstacles[i];
        proof {
            reveal(Seq::filter);
            let next = obstacles@.subrange(0, i + 1);
            assert(next.drop_last() =~= obstacles@.subrange(0, i as int));
        }
        if has_left_window(obstacle.position.y, torso_y) {
            gone.push(obstacle);
        } else {
            kept.push(obstacle);
        }
        i += 1;
    }
    proof {
        assert(obstacles@.subrange(0, obstacles.len() as int) =~= obstacles@);
    }
    *obstacles = kept;
    gone
}

/// The numbers drawn for one new obstacle, in the order in which they are
/// drawn.
#[derive(Clone, Copy, Debug, PartialEq, Eq, Structural)]
pub struct ObstacleDraws {
    pub width: i64,
    pub height: i64,
    /// Horizontal position of the centre.
    pub x: i64,
    pub red: i64,
    pub green: i64,
    pub blue: i64,
    /// In degrees.
    pub rotation: i64,
    pub shape: ObstacleShape,
}

/// Half of a width, rounded up.
pub open spec fn half_up(width: int) -> int {
    (width + 1) / 2
}

/// The leftmost centre of an obstacle of the given width in a band that
/// starts at `x_min`: the obstacle's left edge may touch the band's.
pub open spec fn x_low(x_min: int, width: int) -> int {
    x_min + half_up(width)
}

/// The rightmost centre of an obstacle of the given width in a band that
/// ends at `x_max`: the obstacle's right edge stays short of the band's.
pub open spec fn x_high(x_max: int, width: int) -> int {
    x_max - width / 2 - 1
}

/// The darkest shade of an obstacle.
pub open spec fn shade_low() -> int {
    OBSTACLE_BASE_COLOR - OBSTACLE_COLOR_VARIATION
}

/// The lightest shade of an obstacle.
pub open spec fn shade_high() -> int {
    OBSTACLE_BASE_COLOR + OBSTACLE_COLOR_VARIATION - 1
}

/// Whether the draws are ones that can come out for an obstacle in the band
/// from `x_min` to `x_max` with sizes from `size_min` to `size_max`: the sizes
/// are in their range, the centre is far enough from both edges of the band
/// for the whole width to lie inside, each colour channel is within the
/// variation of the base colour, and the rotation is less than a full turn.
pub open spec fn draws_admissible(
    draws: ObstacleDraws,
    x_min: int,
    x_max: int,
    size_min: int,
    size_max: int,
) -> bool {
    &&& size_min <= draws.width <= size_max
    &&& size_min <= draws.height <= size_max
    &&& x_low(x_min, draws.width as int) <= draws.x <= x_high(x_max, draws.width as int)
    &&& shade_low() <= draws.red <= shade_high()
    &&& shade_low() <= draws.green <= shade_high()
    &&& shade_low() <= draws.blue <= shade_high()
    &&& 0 <= draws.rotation < 360
}

/// A colour channel brought into the range from 0 to 1000.
pub open spec fn clamped_channel(value: int) -> int {
    if value < 0 {
        0
    } else if value > 1000 {
        1000
    } else {
        value
    }
}

/// The shape that a drawn number stands for: 0 for a rectangle, 1 for a
/// circle, anything else for a triangle.
pub open spec fn shape_of(index: int) -> ObstacleShape {
    if index == 0 {
        ObstacleShape::Rectangle
    } else if index == 1 {
        ObstacleShape::Circle
    } else {
        ObstacleShape::Triangle
    }
}

/// The colour of an obstacle with the given draws: each channel is clamped,
/// and a grey obstacle takes the red channel for all three.
pub open spec fn color_of(draws: ObstacleDraws) -> Color {
    let red = clamped_channel(draws.red as int) as i64;
    if OBSTACLE_GRAYSCALE {
        Color { red, green: red, blue: red }
    } else {
        Color {
            red,
            green: clamped_channel(draws.green as int) as i64,
            blue: clamped_channel(draws.blue as int) as i64,
        }
    }
}

/// The obstacle that the given draws make at the height `y_height`. A circle
/// is not rotated.
pub open spec fn obstacle_of(draws: ObstacleDraws, y_height: i64) -> ObstacleObject {
    ObstacleObject {
        handle: 0,
        shape: draws.shape,
        position: Vec2 { x: draws.x, y: y_height },
        width: draws.width,
        height: draws.height,
        rotation: if draws.shape == ObstacleShape::Circle {
            0
        } else {
            draws.rotation
        },
        color: color_of(draws),
        gravity_scale: OBSTACLE_GRAVITY_SCALE,
    }
}

/// A colour channel brought into the range from 0 to 1000.
pub fn clamp_channel(value: i64) -> (clamped: i64)
    ensures
        clamped == clamped_channel(value as int),
{
    if value < 0 {
        0
    } else if value > 1000 {
        1000
    } else {
        value
    }
}

/// The shape that a drawn number stands for.
pub fn shape_from(index: i64) -> (shape: ObstacleShape)
    ensures
        shape == shape_of(index as int),
{
    if index == 0 {
        ObstacleShape::Rectangle
    } else if index == 1 {
        ObstacleShape::Circle
    } else {
        ObstacleShape::Triangle
    }
}

/// Builds the obstacle that the given draws make at the height `y_height`.
pub fn build_obstacle(draws: &ObstacleDraws, y_height: i64) -> (obstacle: ObstacleObject)
    ensures
        obstacle == obstacle_of(*draws, y_height),
{
    let red: i64 = clamp_channel(draws.red);
    let color: Color = if OBSTACLE_GRAYSCALE {
        Color { red, green: red, blue: red }
    } else {
        Color { red, green: clamp_channel(draws.green), blue: clamp_channel(draws.blue) }
    };
    let rotation: i64 = match draws.shape {
        ObstacleShape::Circle => 0,
        _ => draws.rotation,
    };
    ObstacleObject {
        handle: 0,
        shape: draws.shape,
        position: Vec2 { x: draws.x, y: y_height },
        width: draws.width,
        height: draws.height,
        rotation,
        color,
        gravity_scale: OBSTACLE_GRAVITY_SCALE,
    }
}

/// Whether obstacles with sizes from `size_min` to `size_max` can be placed
/// in the band from `x_min` to `x_max`: the sizes are positive, their range
/// is not empty, and the band is wider than the widest obstacle.
pub open spec fn band_has_room(x_min: int, x_max: int, size_min: int, size_max: int) -> bool {
    &&& 0 < size_min <= size_max
    &&& x_max - x_min > size_max
}

/// Whether obstacles with sizes from `size_min` to `size_max` can be placed
/// in the band from `x_min` to `x_max`.
pub fn has_room(x_min: i32, x_max: i32, size_min: i32, size_max: i32) -> (room: bool)
    ensures
        room == band_has_room(x_min as int, x_max as int, size_min as int, size_max as int),
{
    if size_min <= 0 || size_min > size_max {
        return false;
    }
    x_max as i64 - x_min as i64 > size_max as i64
}

/// The range from which the centre of an obstacle of the given width is
/// drawn, both ends included.
pub fn x_range(x_min: i32, x_max: i32, width: u32) -> (range: (i64, i64))
    ensures
        range.0 == x_low(x_min as int, width as int),
        range.1 == x_high(x_max as int, width as int),
{
    let width: i64 = width as i64;
    (x_min as i64 + (width + 1) / 2, x_max as i64 - width / 2 - 1)
}

/// The range from which each colour channel of an obstacle is drawn, both
/// ends included.
pub fn shade_range() -> (range: (i64, i64))
    ensures
        range.0 == shade_low(),
        range.1 == shade_high(),
{
    (
        OBSTACLE_BASE_COLOR - OBSTACLE_COLOR_VARIATION,
        OBSTACLE_BASE_COLOR + OBSTACLE_COLOR_VARIATION - 1,
    )
}

/// Draws the numbers for one new obstacle: width, height, horizontal
/// position, the three colour channels, rotation and shape, in this order.
/// The sizes are drawn from `size_min` to `size_max`, the centre from the
/// range that [`x_range`] gives for the width drawn, each colour channel from
/// the range that [`shade_range`] gives, the rotation from 0 to 359 and the
/// shape from the three shapes, each with the same chance.
pub fn draw_obstacle(
    x_min: i32,
    x_max: i32,
    size_min: i32,
    size_max: i32,
    gen_rng: &mut StdRng,
) -> (draws: ObstacleDraws)
    requires
        band_has_room(x_min as int, x_max as int, size_min as int, size_max as int),
    ensures
        draws_admissible(draws, x_min as int, x_max as int, size_min as int, size_max as int),
{
    let width: i64 = random_in_range(gen_rng, size_min as i64, size_max as i64);
    let height: i64 = random_in_range(gen_rng, size_min as i64, size_max as i64);
    let centres: (i64, i64) = x_range(x_min, x_max, width as u32);
    let x: i64 = random_in_range(gen_rng, centres.0, centres.1);
    let shades: (i64, i64) = shade_range();
    let red: i64 = random_in_range(gen_rng, shades.0, shades.1);
    let green: i64 = random_in_range(gen_rng, shades.0, shades.1);
    let blue: i64 = random_in_range(gen_rng, shades.0, shades.1);
    let rotation: i64 = random_in_range(gen_rng, 0, 359);
    let shape: ObstacleShape = shape_from(random_in_range(gen_rng, 0, 2));
    ObstacleDraws { width, height, x, red, green, blue, rotation, shape }
}

/// Makes one obstacle of a random shape, size, colour and rotation at the
/// height `y_height`, somewhere in the band from `x_min` to `x_max`: its left
/// edge may touch the band's, its right edge stays short of the band's. The
/// band must be wider than the widest obstacle.
pub fn spawn_random_obstacle(
    x_min: i32,
    x_max: i32,
    size_min: i32,
    size_max: i32,
    gen_rng: &mut StdRng,
    y_height: i64,
) -> (obstacle: ObstacleObject)
    requires
        band_has_room(x_min as int, x_max as int, size_min as int, size_max as int),
    ensures
        exists|draws: ObstacleDraws|
            draws_admissible(draws, x_min as int, x_max as int, size_min as int, size_max as int)
                && obstacle == #[trigger] obstacle_of(draws, y_height),
{
    let draws: ObstacleDraws = draw_obstacle(x_min, x_max, size_min, size_max, gen_rng);
    build_obstacle(&draws, y_height)
}

/// What one tick has done to the obstacles.
#[derive(Debug)]
pub struct ObstacleChanges {
    /// The obstacles that were removed, in their former order. Their bodies
    /// are to be removed from the physics world.
    pub despawned: Vec<ObstacleObject>,
    /// Whether the trial of this tick has succeeded. A trial is made only
    /// where a spawn is due; without one this is `false`.
    pub trial: bool,
    /// Whether an obstacle was spawned. It is then the last one of the list,
    /// and its body is to be created.
    pub spawned: bool,
}

/// Carries out the obstacle step of one tick once it is decided whether an
/// obstacle is spawned, and which. Every obstacle that has left the window
/// around a torso at `torso_y` is removed and handed back; then the new
/// obstacle, if there is one, is added at the end and the time of the last
/// spawn is set to `now_ms`.
pub fn update_obstacles(
    obstacles: &mut Vec<ObstacleObject>,
    last_spawned: &mut u64,
    torso_y: i64,
    now_ms: u64,
    fresh: Option<ObstacleObject>,
) -> (despawned: Vec<ObstacleObject>)
    ensures
        despawned@ == old(obstacles)@.filter(leaving(torso_y as int)),
        final(obstacles)@ == match fresh {
            Some(obstacle) => old(obstacles)@.filter(staying(torso_y as int)).push(obstacle),
            None => old(obstacles)@.filter(staying(torso_y as int)),
        },
        *final(last_spawned) == if fresh is Some {
            now_ms
        } else {
            *old(last_spawned)
        },
{
    let despawned: Vec<ObstacleObject> = despawn_out_of_window(obstacles, torso_y);
    match fresh {
        Some(obstacle) => {
            obstacles.push(obstacle);
            *last_spawned = now_ms;
        },
        None => {},
    }
    despawned
}

/// What the obstacle step of one tick does while it acts, around a torso at
/// `torso_y`. Every obstacle that has left the window is removed and handed
/// back. A trial is made only where a spawn is due. An obstacle is spawned
/// just when a spawn is due, the trial has succeeded, and a spawn is allowed
/// among the obstacles as they stood; it is made of admissible draws, it
/// stands `UNDER_PLAYER_SPAWN` below the torso, it comes last, and the time
/// of the last spawn becomes `now_ms`. Without a spawn the obstacles that
/// stay are all there is, and the time of the last spawn stays.
pub open spec fn obstacles_stepped(
    before: Seq<ObstacleObject>,
    last_before: u64,
    torso_y: int,
    now_ms: u64,
    changes: ObstacleChanges,
    after: Seq<ObstacleObject>,
    last_after: u64,
) -> bool {
    let kept = before.filter(staying(torso_y));
    &&& changes.despawned@ == before.filter(leaving(torso_y))
    &&& changes.trial ==> spawn_due(last_before as int, now_ms as int)
    &&& changes.spawned == spawn_decision(
        last_before as int,
        now_ms as int,
        changes.trial,
        before,
        torso_y,
    )
    &&& changes.spawned ==> {
        &&& last_after == now_ms
        &&& exists|draws: ObstacleDraws|
            draws_admissible(
                draws,
                OBSTACLE_X_MIN as int,
                OBSTACLE_X_MAX as int,
                OBSTACLE_SIZE_MIN as int,
                OBSTACLE_SIZE_MAX as int,
            ) && after == kept.push(#[trigger] obstacle_of(draws, spawn_height(torso_y) as i64))
    }
    &&& !changes.spawned ==> {
        &&& after == kept
        &&& last_after == last_before
    }
}

/// What the obstacle step of one tick does where it does not act: nothing.
pub open spec fn obstacles_untouched(
    before: Seq<ObstacleObject>,
    last_before: u64,
    changes: ObstacleChanges,
    after: Seq<ObstacleObject>,
    last_after: u64,
) -> bool {
    &&& after == before
    &&& last_after == last_before
    &&& changes.despawned@.len() == 0
    &&& !changes.trial
    &&& !changes.spawned
}

/// The obstacle step of one tick.
///
/// It acts only during a round and while there is a torso. Where a spawn is
/// due it makes the trial of this tick, with the chance that [`spawn_chance`]
/// gives, and [`spawn_decided`] says whether an obstacle is spawned. If so,
/// one obstacle is made `UNDER_PLAYER_SPAWN` below the torso. Then every
/// obstacle that has left the window around the torso is removed; the new
/// obstacle, if there is one, stays. Obstacles that kept the least distance
/// from each other still do so.
///
/// The generator is used only where a spawn is due: outside a round, without
/// a torso, or before a spawn is due it stays as it is.
pub fn manage_obstacles(
    obstacles_data: &mut ObstaclesData,
    obstacles: &mut Vec<ObstacleObject>,
    ragdoll: &Option<Ragdoll>,
    game_state: &GameState,
    now_ms: u64,
) -> (changes: ObstacleChanges)
    ensures
        match *ragdoll {
            Some(live) if *game_state == GameState::InGame => obstacles_stepped(
                old(obstacles)@,
                old(obstacles_data).last_spawned,
                live@.torso().position.y as int,
                now_ms,
                changes,
                final(obstacles)@,
                final(obstacles_data).last_spawned,
            ),
            _ => obstacles_untouched(
                old(obstacles)@,
                old(obstacles_data).last_spawned,
                changes,
                final(obstacles)@,
                final(obstacles_data).last_spawned,
            ),
        },
        (*game_state != GameState::InGame || *ragdoll is None || !spawn_due(
            old(obstacles_data).last_spawned as int,
            now_ms as int,
        )) ==> final(obstacles_data).rng == old(obstacles_data).rng,
        well_spaced(old(obstacles)@) ==> well_spaced(final(obstacles)@),
{
    if *game_state != GameState::InGame {
        return ObstacleChanges { despawned: Vec::new(), trial: false, spawned: false };
    }
    match ragdoll {
        Some(live) => {
            let torso_y: i64 = live.torso().position.y;
            let last_spawned: u64 = obstacles_data.last_spawned;
            let trial: bool = if is_spawn_due(last_spawned, now_ms) {
                let chance: (u32, u32) = spawn_chance();
                random_ratio(&mut obstacles_data.rng, chance.0, chance.1)
            } else {
                false
            };
            let spawned: bool = spawn_decided(last_spawned, now_ms, trial, obstacles, torso_y);
            let fresh: Option<ObstacleObject> = if spawned {
                Some(
                    spawn_random_obstacle(
                        OBSTACLE_X_MIN,
                        OBSTACLE_X_MAX,
                        OBSTACLE_SIZE_MIN,
                        OBSTACLE_SIZE_MAX,
                        &mut obstacles_data.rng,
                        torso_y - UNDER_PLAYER_SPAWN,
                    ),
                )
            } else {
                None
            };
            proof {
                if let Some(obstacle) = fresh {
                    let draws = choose|draws: ObstacleDraws|
                        draws_admissible(
                            draws,
                            OBSTACLE_X_MIN as int,
                            OBSTACLE_X_MAX as int,
                            OBSTACLE_SIZE_MIN as int,
                            OBSTACLE_SIZE_MAX as int,
                        ) && obstacle == #[trigger] obstacle_of(
                            draws,
                            (torso_y - UNDER_PLAYER_SPAWN) as i64,
                        );
                    assert(obstacle == obstacle_of(draws, spawn_height(torso_y as int) as i64));
                    if well_spaced(obstacles@) {
                        lemma_spawn_keeps_spacing(
                            obstacles@,
                            staying(torso_y as int),
                            obstacle,
                            torso_y as int,
                        );
                    }
                } else if well_spaced(obstacles@) {
                    lemma_filter_keeps_spacing(obstacles@, staying(torso_y as int));
                }
            }
            let despawned: Vec<ObstacleObject> = update_obstacles(
                obstacles,
                &mut obstacles_data.last_spawned,
                torso_y,
                now_ms,
                fresh,
            );
            ObstacleChanges { despawned, trial, spawned }
        },
        None => ObstacleChanges { despawned: Vec::new(), trial: false, spawned: false },
    }
}

/// Every obstacle that a filter keeps was among the obstacles before.
proof fn lemma_filtered_was_there(
    obstacles: Seq<ObstacleObject>,
    test: spec_fn(ObstacleObject) -> bool,
    i: int,
) -> (k: int)
    requires
        0 <= i < obstacles.filter(test).len(),
    ensures
        0 <= k < obstacles.len(),
        obstacles[k] == obstacles.filter(test)[i],
{
    let kept = obstacles.filter(test);
    assert(kept.contains(kept[i]));
    obstacles.lemma_filter_contains_rev(test, kept[i]);
    choose|k: int| 0 <= k < obstacles.len() && obstacles[k] == kept[i]
}

/// Removing obstacles never brings two of the others too close.
pub proof fn lemma_filter_keeps_spacing(
    obstacles: Seq<ObstacleObject>,
    test: spec_fn(ObstacleObject) -> bool,
)
    requires
        well_spaced(obstacles),
    ensures
        well_spaced(obstacles.filter(test)),
    decreases obstacles.len(),
{
    reveal(Seq::filter);
    if obstacles.len() > 0 {
        let rest = obstacles.drop_last();
        let last = obstacles.last();
        assert forall|i: int, j: int| 0 <= i < j < rest.len() implies !too_close(
            (#[trigger] rest[i]).position.y as int,
            (#[trigger] rest[j]).position.y as int,
        ) by {
            assert(rest[i] == obstacles[i] && rest[j] == obstacles[j]);
        }
        lemma_filter_keeps_spacing(rest, test);
        if test(last) {
            let kept = rest.filter(test);
            let all = obstacles.filter(test);
            assert(all == kept.push(last));
            assert forall|i: int, j: int| 0 <= i < j < all.len() implies !too_close(
                (#[trigger] all[i]).position.y as int,
                (#[trigger] all[j]).position.y as int,
            ) by {
                if j == kept.len() {
                    let k = lemma_filtered_was_there(rest, test, i);
                    assert(all[i] == obstacles[k] && all[j] == last);
                }
            }
        }
    }
}

/// An obstacle spawned where a spawn is allowed keeps the least distance
/// from every obstacle that stays.
pub proof fn lemma_spawn_keeps_spacing(
    obstacles: Seq<ObstacleObject>,
    test: spec_fn(ObstacleObject) -> bool,
    fresh: ObstacleObject,
    torso_y: int,
)
    requires
        well_spaced(obstacles),
        spawn_allowed(obstacles, torso_y),
        fresh.position.y == spawn_height(torso_y),
    ensures
        well_spaced(obstacles.filter(test).push(fresh)),
{
    lemma_filter_keeps_spacing(obstacles, test);
    let kept = obstacles.filter(test);
    let all = kept.push(fresh);
    assert forall|i: int, j: int| 0 <= i < j < all.len() implies !too_close(
        (#[trigger] all[i]).position.y as int,
        (#[trigger] all[j]).position.y as int,
    ) by {
        if j == kept.len() {
            let k = lemma_filtered_was_there(obstacles, test, i);
            assert(all[i] == obstacles[k] && all[j] == fresh);
        }
    }
}

/// On a tick on which the obstacle step acts, exactly one obstacle is
/// spawned where a spawn is due, the trial has succeeded and a spawn is
/// allowed, and none otherwise: the list grows by that one beyond the
/// obstacles that stay.
pub proof fn lemma_spawns_one_or_none(
    before: Seq<ObstacleObject>,
    last_before: u64,
    torso_y: int,
    now_ms: u64,
    changes: ObstacleChanges,
    after: Seq<ObstacleObject>,
    last_after: u64,
)
    requires
        obstacles_stepped(before, last_before, torso_y, now_ms, changes, after, last_after),
    ensures
        after.len() == before.filter(staying(torso_y)).len() + if spawn_decision(
            last_before as int,
            now_ms as int,
            changes.trial,
            before,
            torso_y,
        ) {
            1int
        } else {
            0int
        },
        !spawn_due(last_before as int, now_ms as int) || !spawn_allowed(before, torso_y)
            ==> !changes.spawned,
{
}

/// A spawned obstacle is never placed within the least distance of an
/// obstacle that was there: where the obstacle step has spawned one, it is the
/// last of the list, it stands at the spawn height, and every obstacle from
/// before the step, removed or not, is at least the least distance away.
pub proof fn lemma_spawn_respects_distance(
    before: Seq<ObstacleObject>,
    last_before: u64,
    torso_y: int,
    now_ms: u64,
    changes: ObstacleChanges,
    after: Seq<ObstacleObject>,
    last_after: u64,
    i: int,
)
    requires
        obstacles_stepped(before, last_before, torso_y, now_ms, changes, after, last_after),
        changes.spawned,
        0 <= i < before.len(),
        torso_y <= i64::MAX,
    ensures
        after.len() > 0,
        after.last().position.y == spawn_height(torso_y),
        !too_close(before[i].position.y as int, after.last().position.y as int),
{
}

/// What holds of every obstacle that admissible draws make: it stands at the
/// given height, its whole width lies inside the band, with the right edge
/// short of the band's, its sizes are in their range, it is grey with a shade within the variation of the base colour,
/// it is rotated by less than a full turn and not at all if it is a circle,
/// and it carries no handle yet.
pub proof fn lemma_obstacle_in_band(
    draws: ObstacleDraws,
    y_height: i64,
    x_min: int,
    x_max: int,
    size_min: int,
    size_max: int,
)
    requires
        draws_admissible(draws, x_min, x_max, size_min, size_max),
        0 < size_min,
    ensures
        ({
            let obstacle = obstacle_of(draws, y_height);
            &&& obstacle.position.y == y_height
            &&& 2 * x_min <= 2 * obstacle.position.x - obstacle.width
            &&& 2 * obstacle.position.x + obstacle.width < 2 * x_max
            &&& size_min <= obstacle.width <= size_max
            &&& size_min <= obstacle.height <= size_max
            &&& obstacle.color.red == obstacle.color.green == obstacle.color.blue
            &&& OBSTACLE_BASE_COLOR - OBSTACLE_COLOR_VARIATION <= obstacle.color.red
                < OBSTACLE_BASE_COLOR + OBSTACLE_COLOR_VARIATION
            &&& 0 <= obstacle.rotation < 360
            &&& obstacle.shape == ObstacleShape::Circle ==> obstacle.rotation == 0
            &&& obstacle.gravity_scale == OBSTACLE_GRAVITY_SCALE
            &&& obstacle.handle == 0
        }),
{
}

/// Despawning is exact: an obstacle that has left the window is handed back
/// and is not kept, and an obstacle that is still in the window is kept and
/// is not handed back.
pub proof fn lemma_despawn_is_exact(obstacles: Seq<ObstacleObject>, torso_y: int, i: int)
    requires
        0 <= i < obstacles.len(),
    ensures
        leaves_window(obstacles[i].position.y as int, torso_y) ==> {
            &&& obstacles.filter(leaving(torso_y)).contains(obstacles[i])
            &&& !obstacles.filter(staying(torso_y)).contains(obstacles[i])
        },
        !leaves_window(obstacles[i].position.y as int, torso_y) ==> {
            &&& obstacles.filter(staying(torso_y)).contains(obstacles[i])
            &&& !obstacles.filter(leaving(torso_y)).contains(obstacles[i])
        },
{
    let gone = obstacles.filter(leaving(torso_y));
    let kept = obstacles.filter(staying(torso_y));
    if leaves_window(obstacles[i].position.y as int, torso_y) {
        obstacles.lemma_filter_contains(leaving(torso_y), i);
        if kept.contains(obstacles[i]) {
            let k = choose|k: int| 0 <= k < kept.len() && kept[k] == obstacles[i];
            obstacles.lemma_filter_pred(staying(torso_y), k);
        }
    } else {
        obstacles.lemma_filter_contains(staying(torso_y), i);
        if gone.contains(obstacles[i]) {
            let k = choose|k: int| 0 <= k < gone.len() && gone[k] == obstacles[i];
            obstacles.lemma_filter_pred(leaving(torso_y), k);
        }
    }
}

/// No wall and no obstacle is taken for a part of the player: their identity
/// strings do not hold the player tag.
pub proof fn lemma_world_names_are_not_player_names(obstacle: ObstacleObject)
    ensures
        !is_player_name(Wall::spec_name()),
        !is_player_name(obstacle.spec_name()),
{
    reveal_strlit("player");
    reveal_strlit("wall");
    reveal_strlit("obstacle_rectangular");
    reveal_strlit("obstacle_round");
    reveal_strlit("obstacle_triangular");
    let tag = player_tag();
    assert(tag[0] == 'p');
    let wall = Wall::spec_name();
    assert forall|at: int| !occurs_at(wall, tag, at) by {
        if occurs_at(wall, tag, at) {
            assert(wall.subrange(at, at + tag.len())[0] == tag[0]);
        }
    }
    let name = obstacle.spec_name();
    assert forall|at: int| !occurs_at(name, tag, at) by {
        if occurs_at(name, tag, at) {
            assert(name.subrange(at, at + tag.len())[0] == tag[0]);
        }
    }
}

} // verus!
