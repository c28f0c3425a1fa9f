//! The player's ragdoll: six body parts and the five joints that tie every
//! other part to the torso.

use crate::geometry::Vec2;
use crate::text::{contains_text, occurs_at, occurs_in, same_text};
use vstd::prelude::*;

verus! {

/// How many body parts a ragdoll has.
pub const PART_COUNT: usize = 6;

/// How many joints a ragdoll has: one for every part but the torso.
pub const JOINT_COUNT: usize = 5;

/// Linear damping of every part of the player, in thousandths.
pub const PLAYER_LINEAR_DAMPING: u32 = 1000;

/// Angular damping of every part of the player, in thousandths.
pub const PLAYER_ANGULAR_DAMPING: u32 = 500;

/// Where the player's torso starts a round.
pub const PLAYER_START_X: i64 = 0;

/// Height at which the player's torso starts a round.
pub const PLAYER_START_Y: i64 = 200;

/// Contact force above which a hit on the torso is damaging.
pub const TORSO_FORCE_THRESHOLD: u64 = 500_000;

/// Contact force above which a hit on the head is damaging. The head takes a
/// harder blow than a limb, because a damaging hit on it ends the round.
pub const HEAD_FORCE_THRESHOLD: u64 = 90_000_000;

/// Contact force above which a hit on an arm or a leg is damaging.
pub const LIMB_FORCE_THRESHOLD: u64 = 60_000_000;

/// Largest distance, along either axis, between the position handed to
/// [`spawn_ragdoll`] and the centre of a part it creates.
pub const SPAWN_REACH: i64 = 100;

/// The parts of a ragdoll.
#[derive(Clone, Copy, Debug, PartialEq, Eq, Hash, Structural)]
pub enum PartId {
    Torso,
    Head,
    ArmRight,
    ArmLeft,
    LegRight,
    LegLeft,
}

impl PartId {
    /// Position of the part in a ragdoll's list of parts.
    pub open spec fn spec_index(self) -> int {
        match self {
            PartId::Torso => 0,
            PartId::Head => 1,
            PartId::ArmRight => 2,
            PartId::ArmLeft => 3,
            PartId::LegRight => 4,
            PartId::LegLeft => 5,
        }
    }

    /// The part at a position of a ragdoll's list of parts.
    pub open spec fn spec_from_index(index: int) -> PartId {
        if index == 0 {
            PartId::Torso
        } else if index == 1 {
            PartId::Head
        } else if index == 2 {
            PartId::ArmRight
        } else if index == 3 {
            PartId::ArmLeft
        } else if index == 4 {
            PartId::LegRight
        } else {
            PartId::LegLeft
        }
    }

    /// The identity string of the part. It is the key under which the part is
    /// known to everything outside this library: colliders, colours, textures.
    pub open spec fn spec_name(self) -> Seq<char> {
        match self {
            PartId::Torso => "player_torso"@,
            PartId::Head => "player_head"@,
            PartId::ArmRight => "player_arm_r"@,
            PartId::ArmLeft => "player_arm_l"@,
            PartId::LegRight => "player_leg_r"@,
            PartId::LegLeft => "player_leg_l"@,
        }
    }

    /// Position of the part in a ragdoll's list of parts.
    pub fn index(self) -> (index: usize)
        ensures
            index == self.spec_index(),
            index < PART_COUNT,
    {
        match self {
            PartId::Torso => 0,
            PartId::Head => 1,
            PartId::ArmRight => 2,
            PartId::ArmLeft => 3,
            PartId::LegRight => 4,
            PartId::LegLeft => 5,
        }
    }

    /// The part at a position of a ragdoll's list of parts, if there is one.
    pub fn from_index(index: usize) -> (part: Option<PartId>)
        ensures
            index < PART_COUNT ==> part == Some(PartId::spec_from_index(index as int)),
            index >= PART_COUNT ==> part is None,
    {
        if index == 0 {
            Some(PartId::Torso)
        } else if index == 1 {
            Some(PartId::Head)
        } else if index == 2 {
            Some(PartId::ArmRight)
        } else if index == 3 {
            Some(PartId::ArmLeft)
        } else if index == 4 {
            Some(PartId::LegRight)
        } else if index == 5 {
            Some(PartId::LegLeft)
        } else {
            None
        }
    }

    /// The identity string of the part.
    pub fn name(self) -> (name: &'static str)
        ensures
            name@ == self.spec_name(),
    {
        match self {
            PartId::Torso => "player_torso",
            PartId::Head => "player_head",
            PartId::ArmRight => "player_arm_r",
            PartId::ArmLeft => "player_arm_l",
            PartId::LegRight => "player_leg_r",
            PartId::LegLeft => "player_leg_l",
        }
    }

    /// The part that carries the given identity string, if any does.
    pub fn from_name(name: &str) -> (part: Option<PartId>)
        ensures
            part == part_named(name@),
    {
        if same_text(name, "player_torso") {
            Some(PartId::Torso)
        } else if same_text(name, "player_head") {
            Some(PartId::Head)
        } else if same_text(name, "player_arm_r") {
            Some(PartId::ArmRight)
        } else if same_text(name, "player_arm_l") {
            Some(PartId::ArmLeft)
        } else if same_text(name, "player_leg_r") {
            Some(PartId::LegRight)
        } else if same_text(name, "player_leg_l") {
            Some(PartId::LegLeft)
        } else {
            None
        }
    }
}

/// The part that carries the identity string `name`, if any does.
pub open spec fn part_named(name: Seq<char>) -> Option<PartId> {
    if name == PartId::Torso.spec_name() {
        Some(PartId::Torso)
    } else if name == PartId::Head.spec_name() {
        Some(PartId::Head)
    } else if name == PartId::ArmRight.spec_name() {
        Some(PartId::ArmRight)
    } else if name == PartId::ArmLeft.spec_name() {
        Some(PartId::ArmLeft)
    } else if name == PartId::LegRight.spec_name() {
        Some(PartId::LegRight)
    } else if name == PartId::LegLeft.spec_name() {
        Some(PartId::LegLeft)
    } else {
        None
    }
}

/// The tag that every identity string of the player holds.
pub open spec fn player_tag() -> Seq<char> {
    "player"@
}

/// Whether an identity string belongs to the player: it holds the player tag
/// somewhere.
pub open spec fn is_player_name(name: Seq<char>) -> bool {
    occurs_in(name, player_tag())
}

/// Whether an identity string belongs to the player.
pub fn names_player(name: &str) -> (player: bool)
    ensures
        player == is_player_name(name@),
{
    contains_text(name, "player")
}

/// The collider of a body part.
#[derive(Clone, Copy, Debug, PartialEq, Eq, Structural)]
pub enum PartShape {
    /// A box, given by half its width and half its height.
    Cuboid { half_width: i64, half_height: i64 },
    /// A disc.
    Ball { radius: i64 },
}

/// One rigid body of the ragdoll, with its collider.
#[derive(Clone, Copy, Debug, PartialEq, Eq, Structural)]
pub struct PlayerBodyPart {
    pub id: PartId,
    pub shape: PartShape,
    /// Centre of the body.
    pub position: Vec2,
    /// Linear velocity of the body.
    pub velocity: Vec2,
    /// In thousandths.
    pub linear_damping: u32,
    /// In thousandths.
    pub angular_damping: u32,
    /// Mass density, in thousandths.
    pub density: u32,
    /// A contact with a force above this value damages the part. A part
    /// without a threshold is never damaged.
    pub force_threshold: Option<u64>,
}

/// A revolute joint between the torso and one other part.
#[derive(Clone, Copy, Debug, PartialEq, Eq, Structural)]
pub struct Joint {
    /// The part that hangs on the torso.
    pub child: PartId,
    /// Where the joint sits, relative to the centre of the child.
    pub child_anchor: Vec2,
    /// Where the joint sits, relative to the centre of the torso.
    pub torso_anchor: Vec2,
    /// Smallest angle between the two bodies, in milliradians.
    pub limit_min: i64,
    /// Largest angle between the two bodies, in milliradians.
    pub limit_max: i64,
}

/// What a [`Ragdoll`] holds, as sequences.
pub struct RagdollView {
    pub parts: Seq<PlayerBodyPart>,
    pub joints: Seq<Joint>,
}

impl RagdollView {
    /// The shape every ragdoll has: the six parts stand in the order of
    /// [`PartId`], so each occurs once, and the five joints are those of the
    /// five parts other than the torso, in the same order, each with a
    /// non-empty range of angles.
    pub open spec fn wf(self) -> bool {
        &&& self.parts.len() == PART_COUNT
        &&& forall|i: int|
            0 <= i < PART_COUNT ==> (#[trigger] self.parts[i]).id == PartId::spec_from_index(i)
        &&& self.joints.len() == JOINT_COUNT
        &&& forall|j: int|
            0 <= j < JOINT_COUNT ==> (#[trigger] self.joints[j]).child == PartId::spec_from_index(
                j + 1,
            )
        &&& forall|j: int|
            0 <= j < JOINT_COUNT ==> (#[trigger] self.joints[j]).limit_min
                <= self.joints[j].limit_max
    }

    /// The part with the given identity.
    pub open spec fn part(self, id: PartId) -> PlayerBodyPart {
        self.parts[id.spec_index()]
    }

    /// The torso.
    pub open spec fn torso(self) -> PlayerBodyPart {
        self.part(PartId::Torso)
    }

    /// The joint that ties the given part to the torso. The torso has none.
    pub open spec fn joint_of(self, id: PartId) -> Joint
        recommends
            id != PartId::Torso,
    {
        self.joints[id.spec_index() - 1]
    }

    /// The same ragdoll with one part replaced.
    pub open spec fn with_part(self, id: PartId, part: PlayerBodyPart) -> RagdollView {
        RagdollView { parts: self.parts.update(id.spec_index(), part), joints: self.joints }
    }
}

/// A live ragdoll: the registry of its parts, indexed by identity, and of its
/// joints.
#[derive(Debug)]
pub struct Ragdoll {
    parts: Vec<PlayerBodyPart>,
    joints: Vec<Joint>,
}

impl View for Ragdoll {
    type V = RagdollView;

    closed spec fn view(&self) -> RagdollView {
        RagdollView { parts: self.parts@, joints: self.joints@ }
    }
}

/// Puts `part` at position `index` of the list.
fn replace_part(parts: &mut Vec<PlayerBodyPart>, index: usize, part: PlayerBodyPart)
    requires
        index < old(parts)@.len(),
    ensures
        final(parts)@ == old(parts)@.update(index as int, part),
    no_unwind
{
    parts[index] = part;
}

impl Ragdoll {
    /// Every ragdoll has the shape of a ragdoll, at all times.
    #[verifier::type_invariant]
    pub open spec fn well_formed(self) -> bool {
        self@.wf()
    }

    /// The parts, in the order of [`PartId`].
    pub fn parts(&self) -> (parts: &Vec<PlayerBodyPart>)
        ensures
            parts@ == self@.parts,
            self@.wf(),
    {
        proof {
            use_type_invariant(self);
        }
        &self.parts
    }

    /// The joints, in the order of the parts they hold.
    pub fn joints(&self) -> (joints: &Vec<Joint>)
        ensures
            joints@ == self@.joints,
            self@.wf(),
    {
        proof {
            use_type_invariant(self);
        }
        &self.joints
    }

    /// The part with the given identity.
    pub fn part(&self, id: PartId) -> (part: PlayerBodyPart)
        ensures
            part == self@.part(id),
            part.id == id,
            self@.wf(),
    {
        proof {
            use_type_invariant(self);
            lemma_index_round_trip(id, 0);
        }
        self.parts[id.index()]
    }

    /// The torso.
    pub fn torso(&self) -> (part: PlayerBodyPart)
        ensures
            part == self@.torso(),
            part.id == PartId::Torso,
            self@.wf(),
    {
        self.part(PartId::Torso)
    }

    /// Moves one part to a new position. Nothing else changes.
    pub fn set_position(&mut self, id: PartId, position: Vec2)
        ensures
            final(self)@ == old(self)@.with_part(
                id,
                (PlayerBodyPart { position, ..old(self)@.part(id) }),
            ),
            old(self)@.wf(),
            final(self)@.wf(),
    {
        proof {
            use_type_invariant(&*self);
        }
        let index: usize = id.index();
        let part: PlayerBodyPart = self.parts[index];
        replace_part(&mut self.parts, index, PlayerBodyPart { position, ..part });
    }

    /// Gives one part a new velocity. Nothing else changes.
    pub fn set_velocity(&mut self, id: PartId, velocity: Vec2)
        ensures
            final(self)@ == old(self)@.with_part(
                id,
                (PlayerBodyPart { velocity, ..old(self)@.part(id) }),
            ),
            old(self)@.wf(),
            final(self)@.wf(),
    {
        proof {
            use_type_invariant(&*self);
        }
        let index: usize = id.index();
        let part: PlayerBodyPart = self.parts[index];
        replace_part(&mut self.parts, index, PlayerBodyPart { velocity, ..part });
    }
}

/// A part of the player as it stands at the start of a round: at rest, with
/// the player's damping and unit density.
pub open spec fn player_part(
    id: PartId,
    shape: PartShape,
    x: int,
    y: int,
    threshold: u64,
) -> PlayerBodyPart {
    PlayerBodyPart {
        id,
        shape,
        position: Vec2 { x: x as i64, y: y as i64 },
        velocity: Vec2 { x: 0, y: 0 },
        linear_damping: PLAYER_LINEAR_DAMPING,
        angular_damping: PLAYER_ANGULAR_DAMPING,
        density: 1000,
        force_threshold: Some(threshold),
    }
}

/// A joint whose range of angles is symmetric.
pub open spec fn symmetric_joint(
    child: PartId,
    child_x: int,
    child_y: int,
    torso_x: int,
    torso_y: int,
    limit: int,
) -> Joint {
    Joint {
        child,
        child_anchor: Vec2 { x: child_x as i64, y: child_y as i64 },
        torso_anchor: Vec2 { x: torso_x as i64, y: torso_y as i64 },
        limit_min: (-limit) as i64,
        limit_max: limit as i64,
    }
}

/// The player's ragdoll at the start of a round. The torso stands at
/// (`PLAYER_START_X`, `PLAYER_START_Y`), the head above it, an arm at each
/// side and the legs below. The neck barely bends, the shoulders swing
/// almost freely and the hips in between.
pub open spec fn player_blueprint() -> RagdollView {
    let limb = PartShape::Cuboid { half_width: 5, half_height: 25 };
    RagdollView {
        parts: seq![
            player_part(
                PartId::Torso,
                PartShape::Cuboid { half_width: 10, half_height: 20 },
                PLAYER_START_X as int,
                PLAYER_START_Y as int,
                TORSO_FORCE_THRESHOLD,
            ),
            player_part(PartId::Head, PartShape::Ball { radius: 15 }, 0, 236, HEAD_FORCE_THRESHOLD),
            player_part(PartId::ArmRight, limb, 18, 195, LIMB_FORCE_THRESHOLD),
            player_part(PartId::ArmLeft, limb, -18, 195, LIMB_FORCE_THRESHOLD),
            player_part(PartId::LegRight, limb, 6, 155, LIMB_FORCE_THRESHOLD),
            player_part(PartId::LegLeft, limb, -6, 155, LIMB_FORCE_THRESHOLD),
        ],
        joints: seq![
            symmetric_joint(PartId::Head, 0, -16, 0, 20, 500),
            symmetric_joint(PartId::ArmRight, -5, 20, 13, 15, 5000),
            symmetric_joint(PartId::ArmLeft, 5, 20, -13, 15, 5000),
            symmetric_joint(PartId::LegRight, 0, 25, 6, -20, 2000),
            symmetric_joint(PartId::LegLeft, 0, 25, -6, -20, 2000),
        ],
    }
}

/// A part of a free-standing ragdoll: at rest, undamped, never damaged.
pub open spec fn loose_part(
    id: PartId,
    shape: PartShape,
    x: int,
    y: int,
    density: u32,
) -> PlayerBodyPart {
    PlayerBodyPart {
        id,
        shape,
        position: Vec2 { x: x as i64, y: y as i64 },
        velocity: Vec2 { x: 0, y: 0 },
        linear_damping: 0,
        angular_damping: 0,
        density,
        force_threshold: None,
    }
}

/// Whether a ragdoll whose head stands at `position` can be laid out: every
/// part's centre must be a representable point.
pub open spec fn ragdoll_fits_at(position: Vec2) -> bool {
    &&& i64::MIN + SPAWN_REACH <= position.x <= i64::MAX - SPAWN_REACH
    &&& i64::MIN + SPAWN_REACH <= position.y
}

/// Whether a ragdoll whose head stands at `position` can be laid out.
pub fn fits_at(position: Vec2) -> (fits: bool)
    ensures
        fits == ragdoll_fits_at(position),
{
    i64::MIN + SPAWN_REACH <= position.x && position.x <= i64::MAX - SPAWN_REACH && i64::MIN
        + SPAWN_REACH <= position.y
}

/// A free-standing ragdoll whose head stands at `position`: the torso hangs
/// below the head, the arms beside the torso's top, the legs below the torso.
/// The torso is the densest part and the legs are denser than the arms.
pub open spec fn ragdoll_blueprint(position: Vec2) -> RagdollView {
    let limb = PartShape::Cuboid { half_width: 8, half_height: 25 };
    let x = position.x as int;
    let y = position.y as int;
    RagdollView {
        parts: seq![
            loose_part(
                PartId::Torso,
                PartShape::Cuboid { half_width: 12, half_height: 30 },
                x,
                y - 45,
                2000,
            ),
            loose_part(PartId::Head, PartShape::Ball { radius: 15 }, x, y, 1000),
            loose_part(PartId::ArmRight, limb, x + 20, y - 25, 1000),
            loose_part(PartId::ArmLeft, limb, x - 20, y - 25, 1000),
            loose_part(PartId::LegRight, limb, x + 6, y - 100, 1500),
            loose_part(PartId::LegLeft, limb, x - 6, y - 100, 1500),
        ],
        joints: seq![
            symmetric_joint(PartId::Head, 0, -15, 0, 30, 500),
            symmetric_joint(PartId::ArmRight, -8, 25, 12, 20, 2000),
            symmetric_joint(PartId::ArmLeft, 8, 25, -12, 20, 2000),
            symmetric_joint(PartId::LegRight, 0, 25, 6, -30, 1500),
            symmetric_joint(PartId::LegLeft, 0, 25, -6, -30, 1500),
        ],
    }
}

fn new_player_part(
    id: PartId,
    shape: PartShape,
    x: i64,
    y: i64,
    threshold: u64,
) -> (part: PlayerBodyPart)
    ensures
        part == player_part(id, shape, x as int, y as int, threshold),
{
    PlayerBodyPart {
        id,
        shape,
        position: Vec2 { x, y },
        velocity: Vec2 { x: 0, y: 0 },
        linear_damping: PLAYER_LINEAR_DAMPING,
        angular_damping: PLAYER_ANGULAR_DAMPING,
        density: 1000,
        force_threshold: Some(threshold),
    }
}

fn new_loose_part(
    id: PartId,
    shape: PartShape,
    x: i64,
    y: i64,
    density: u32,
) -> (part: PlayerBodyPart)
    ensures
        part == loose_part(id, shape, x as int, y as int, density),
{
    PlayerBodyPart {
        id,
        shape,
        position: Vec2 { x, y },
        velocity: Vec2 { x: 0, y: 0 },
        linear_damping: 0,
        angular_damping: 0,
        density,
        force_threshold: None,
    }
}

fn new_symmetric_joint(
    child: PartId,
    child_x: i64,
    child_y: i64,
    torso_x: i64,
    torso_y: i64,
    limit: i64,
) -> (joint: Joint)
    requires
        0 <= limit,
    ensures
        joint == symmetric_joint(
            child,
            child_x as int,
            child_y as int,
            torso_x as int,
            torso_y as int,
            limit as int,
        ),
{
    Joint {
        child,
        child_anchor: Vec2 { x: child_x, y: child_y },
        torso_anchor: Vec2 { x: torso_x, y: torso_y },
        limit_min: -limit,
        limit_max: limit,
    }
}

/// Builds the player's ragdoll for a new round.
pub fn setup_player() -> (ragdoll: Ragdoll)
    ensures
        ragdoll@ == player_blueprint(),
        ragdoll@.wf(),
{
    let limb: PartShape = PartShape::Cuboid { half_width: 5, half_height: 25 };
    let mut parts: Vec<PlayerBodyPart> = Vec::new();
    parts.push(
        new_player_part(
            PartId::Torso,
            PartShape::Cuboid { half_width: 10, half_height: 20 },
            PLAYER_START_X,
            PLAYER_START_Y,
            TORSO_FORCE_THRESHOLD,
        ),
    );
    parts.push(
        new_player_part(PartId::Head, PartShape::Ball { radius: 15 }, 0, 236, HEAD_FORCE_THRESHOLD),
    );
    parts.push(new_player_part(PartId::ArmRight, limb, 18, 195, LIMB_FORCE_THRESHOLD));
    parts.push(new_player_part(PartId::ArmLeft, limb, -18, 195, LIMB_FORCE_THRESHOLD));
    parts.push(new_player_part(PartId::LegRight, limb, 6, 155, LIMB_FORCE_THRESHOLD));
    parts.push(new_player_part(PartId::LegLeft, limb, -6, 155, LIMB_FORCE_THRESHOLD));
    let mut joints: Vec<Joint> = Vec::new();
    joints.push(new_symmetric_joint(PartId::Head, 0, -16, 0, 20, 500));
    joints.push(new_symmetric_joint(PartId::ArmRight, -5, 20, 13, 15, 5000));
    joints.push(new_symmetric_joint(PartId::ArmLeft, 5, 20, -13, 15, 5000));
    joints.push(new_symmetric_joint(PartId::LegRight, 0, 25, 6, -20, 2000));
    joints.push(new_symmetric_joint(PartId::LegLeft, 0, 25, -6, -20, 2000));
    let ragdoll = Ragdoll { parts, joints };
    proof {
        assert(ragdoll@.parts =~= player_blueprint().parts);
        assert(ragdoll@.joints =~= player_blueprint().joints);
        lemma_blueprints_wf(Vec2 { x: 0, y: 0 });
    }
    ragdoll
}

/// Builds a free-standing ragdoll whose head stands at `position`.
pub fn spawn_ragdoll(position: Vec2) -> (ragdoll: Ragdoll)
    requires
        ragdoll_fits_at(position),
    ensures
        ragdoll@ == ragdoll_blueprint(position),
        ragdoll@.wf(),
{
    let limb: PartShape = PartShape::Cuboid { half_width: 8, half_height: 25 };
    let x: i64 = position.x;
    let y: i64 = position.y;
    let mut parts: Vec<PlayerBodyPart> = Vec::new();
    parts.push(
        new_loose_part(
            PartId::Torso,
            PartShape::Cuboid { half_width: 12, half_height: 30 },
            x,
            y - 45,
            2000,
        ),
    );
    parts.push(new_loose_part(PartId::Head, PartShape::Ball { radius: 15 }, x, y, 1000));
    parts.push(new_loose_part(PartId::ArmRight, limb, x + 20, y - 25, 1000));
    parts.push(new_loose_part(PartId::ArmLeft, limb, x - 20, y - 25, 1000));
    parts.push(new_loose_part(PartId::LegRight, limb, x + 6, y - 100, 1500));
    parts.push(new_loose_part(PartId::LegLeft, limb, x - 6, y - 100, 1500));
    let mut joints: Vec<Joint> = Vec::new();
    joints.push(new_symmetric_joint(PartId::Head, 0, -15, 0, 30, 500));
    joints.push(new_symmetric_joint(PartId::ArmRight, -8, 25, 12, 20, 2000));
    joints.push(new_symmetric_joint(PartId::ArmLeft, 8, 25, -12, 20, 2000));
    joints.push(new_symmetric_joint(PartId::LegRight, 0, 25, 6, -30, 1500));
    joints.push(new_symmetric_joint(PartId::LegLeft, 0, 25, -6, -30, 1500));
    let ragdoll = Ragdoll { parts, joints };
    proof {
        assert(ragdoll@.parts =~= ragdoll_blueprint(position).parts);
        assert(ragdoll@.joints =~= ragdoll_blueprint(position).joints);
        lemma_blueprints_wf(position);
    }
    ragdoll
}

/// Removes the ragdoll with all its parts and joints. Tearing down twice, or
/// when there is no ragdoll, changes nothing.
pub fn teardown_ragdoll(ragdoll: &mut Option<Ragdoll>)
    ensures
        *final(ragdoll) is None,
{
    *ragdoll = None;
}

/// Both blueprints have the shape of a ragdoll.
pub proof fn lemma_blueprints_wf(position: Vec2)
    ensures
        player_blueprint().wf(),
        ragdoll_blueprint(position).wf(),
{
    let p = player_blueprint();
    assert(p.parts[0].id == PartId::Torso && p.parts[1].id == PartId::Head && p.parts[2].id
        == PartId::ArmRight && p.parts[3].id == PartId::ArmLeft && p.parts[4].id
        == PartId::LegRight && p.parts[5].id == PartId::LegLeft);
    assert(p.joints[0].child == PartId::Head && p.joints[1].child == PartId::ArmRight
        && p.joints[2].child == PartId::ArmLeft && p.joints[3].child == PartId::LegRight
        && p.joints[4].child == PartId::LegLeft);
    let r = ragdoll_blueprint(position);
    assert(r.parts[0].id == PartId::Torso && r.parts[1].id == PartId::Head && r.parts[2].id
        == PartId::ArmRight && r.parts[3].id == PartId::ArmLeft && r.parts[4].id
        == PartId::LegRight && r.parts[5].id == PartId::LegLeft);
    assert(r.joints[0].child == PartId::Head && r.joints[1].child == PartId::ArmRight
        && r.joints[2].child == PartId::ArmLeft && r.joints[3].child == PartId::LegRight
        && r.joints[4].child == PartId::LegLeft);
}

/// The position of a part in the list and the part at a position are inverse
/// to each other.
pub proof fn lemma_index_round_trip(id: PartId, index: int)
    ensures
        PartId::spec_from_index(id.spec_index()) == id,
        0 <= id.spec_index() < PART_COUNT,
        0 <= index < PART_COUNT ==> PartId::spec_from_index(index).spec_index() == index,
{
}

/// Identity strings are unique: two parts with the same string are the same
/// part, and looking a part's string up gives the part back.
pub proof fn lemma_names_unique(a: PartId, b: PartId)
    ensures
        a.spec_name() == b.spec_name() ==> a == b,
        part_named(a.spec_name()) == Some(a),
{
    reveal_strlit("player_torso");
    reveal_strlit("player_head");
    reveal_strlit("player_arm_r");
    reveal_strlit("player_arm_l");
    reveal_strlit("player_leg_r");
    reveal_strlit("player_leg_l");
    let torso = PartId::Torso.spec_name();
    let head = PartId::Head.spec_name();
    let arm_r = PartId::ArmRight.spec_name();
    let arm_l = PartId::ArmLeft.spec_name();
    let leg_r = PartId::LegRight.spec_name();
    let leg_l = PartId::LegLeft.spec_name();
    assert(head.len() == 11 && torso.len() == 12);
    assert(torso[7] == 't' && arm_r[7] == 'a' && arm_l[7] == 'a' && leg_r[7] == 'l' && leg_l[7]
        == 'l');
    assert(arm_r[11] == 'r' && arm_l[11] == 'l' && leg_r[11] == 'r' && leg_l[11] == 'l');
}

/// Every part's identity string belongs to the player.
pub proof fn lemma_part_names_are_player_names(id: PartId)
    ensures
        is_player_name(id.spec_name()),
{
    reveal_strlit("player");
    reveal_strlit("player_torso");
    reveal_strlit("player_head");
    reveal_strlit("player_arm_r");
    reveal_strlit("player_arm_l");
    reveal_strlit("player_leg_r");
    reveal_strlit("player_leg_l");
    let name = id.spec_name();
    assert(name.subrange(0, 6) =~= player_tag());
    assert(occurs_at(name, player_tag(), 0));
}

/// In a ragdoll every identity is carried by exactly one part, the one at the
/// identity's own position. So there is exactly one torso and exactly one
/// head, and no two parts share an identity string.
pub proof fn lemma_parts_unique(ragdoll: RagdollView, id: PartId, i: int)
    requires
        ragdoll.wf(),
        0 <= i < PART_COUNT,
    ensures
        ragdoll.part(id).id == id,
        ragdoll.parts[i].id == id <==> i == id.spec_index(),
        ragdoll.parts[i].id.spec_name() == id.spec_name() <==> i == id.spec_index(),
{
    lemma_index_round_trip(id, i);
    lemma_names_unique(ragdoll.parts[i].id, id);
}

/// The joints of a ragdoll form a star around the torso: every other part
/// hangs on exactly one joint, and no joint holds the torso.
pub proof fn lemma_star_topology(ragdoll: RagdollView, id: PartId, j: int)
    requires
        ragdoll.wf(),
        0 <= j < JOINT_COUNT,
    ensures
        ragdoll.joints[j].child != PartId::Torso,
        id != PartId::Torso ==> ragdoll.joint_of(id).child == id,
        ragdoll.joints[j].child == id <==> (id != PartId::Torso && j == id.spec_index() - 1),
{
    lemma_index_round_trip(id, j + 1);
}

/// How the player stands at the start of a round: the torso at the start
/// position, the head above it, an arm at each side, the legs below, all at
/// rest and damped. The head takes a harder blow than a limb, and a limb a
/// harder one than the torso.
pub proof fn lemma_player_layout(id: PartId)
    ensures
        player_blueprint().torso().position == (Vec2 { x: PLAYER_START_X, y: PLAYER_START_Y }),
        player_blueprint().part(PartId::Head).position.y > PLAYER_START_Y,
        player_blueprint().part(PartId::ArmLeft).position.x < PLAYER_START_X
            < player_blueprint().part(PartId::ArmRight).position.x,
        player_blueprint().part(PartId::LegLeft).position.y < PLAYER_START_Y,
        player_blueprint().part(PartId::LegRight).position.y < PLAYER_START_Y,
        player_blueprint().part(id).velocity == (Vec2 { x: 0, y: 0 }),
        player_blueprint().part(id).linear_damping > 0,
        player_blueprint().part(id).angular_damping > 0,
        player_blueprint().part(id).force_threshold is Some,
        id != PartId::Head ==> player_blueprint().part(id).force_threshold->0
            < player_blueprint().part(PartId::Head).force_threshold->0,
{
}

} // verus!
