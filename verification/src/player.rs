//! What happens to the player during a round: steering, damage, scoring, and
//! the recentering that keeps coordinates bounded during an endless fall.

use crate::game_states::GameState;
use crate::geometry::Vec2;
use crate::player_setup::{
    is_player_name, lemma_names_unique, lemma_part_names_are_player_names, names_player,
    part_named, PartId, PlayerBodyPart, Ragdoll, RagdollView, PART_COUNT, PLAYER_START_Y,
};
use vstd::prelude::*;

verus! {

/// Horizontal speed gained on every tick on which a move input is held.
pub const MOVE_ACCELERATION: i64 = 100;

/// Largest horizontal speed that steering can produce, in either direction.
pub const MAX_MOVE_SPEED: i64 = 600;

/// Vertical speed of the torso right after a jump.
pub const JUMP_SPEED: i64 = 400;

/// Height to which the torso is brought back by recentering.
pub const RESET_HEIGHT: i64 = 5000;

/// Recentering happens once the torso has fallen below this height.
pub const MIN_HEIGHT: i64 = -5000;

/// The set of body parts that have taken a damaging hit in this round.
#[derive(Clone, Copy, Debug)]
pub struct BrokenParts {
    torso: bool,
    head: bool,
    arm_right: bool,
    arm_left: bool,
    leg_right: bool,
    leg_left: bool,
}

impl View for BrokenParts {
    type V = Set<PartId>;

    closed spec fn view(&self) -> Set<PartId> {
        Set::new(
            |id: PartId|
                match id {
                    PartId::Torso => self.torso,
                    PartId::Head => self.head,
                    PartId::ArmRight => self.arm_right,
                    PartId::ArmLeft => self.arm_left,
                    PartId::LegRight => self.leg_right,
                    PartId::LegLeft => self.leg_left,
                },
        )
    }
}

impl BrokenParts {
    /// The empty set.
    pub fn new() -> (parts: BrokenParts)
        ensures
            parts@ == Set::<PartId>::empty(),
    {
        BrokenParts {
            torso: false,
            head: false,
            arm_right: false,
            arm_left: false,
            leg_right: false,
            leg_left: false,
        }
    }

    /// Whether the part is in the set.
    pub fn contains(&self, id: PartId) -> (broken: bool)
        ensures
            broken == self@.contains(id),
    {
        match id {
            PartId::Torso => self.torso,
            PartId::Head => self.head,
            PartId::ArmRight => self.arm_right,
            PartId::ArmLeft => self.arm_left,
            PartId::LegRight => self.leg_right,
            PartId::LegLeft => self.leg_left,
        }
    }

    /// Adds the part to the set.
    pub fn insert(&mut self, id: PartId)
        ensures
            final(self)@ == old(self)@.insert(id),
    {
        match id {
            PartId::Torso => {
                self.torso = true;
            },
            PartId::Head => {
                self.head = true;
            },
            PartId::ArmRight => {
                self.arm_right = true;
            },
            PartId::ArmLeft => {
                self.arm_left = true;
            },
            PartId::LegRight => {
                self.leg_right = true;
            },
            PartId::LegLeft => {
                self.leg_left = true;
            },
        }
    }

    /// Empties the set.
    pub fn clear(&mut self)
        ensures
            final(self)@ == Set::<PartId>::empty(),
    {
        *self = BrokenParts::new();
    }

    /// Whether no part is broken.
    pub fn is_empty(&self) -> (empty: bool)
        ensures
            empty == (self@ == Set::<PartId>::empty()),
    {
        let empty: bool = !(self.torso || self.head || self.arm_right || self.arm_left
            || self.leg_right || self.leg_left);
        proof {
            if empty {
                assert(self@ =~= Set::<PartId>::empty());
            } else {
                let witness = if self.torso {
                    PartId::Torso
                } else if self.head {
                    PartId::Head
                } else if self.arm_right {
                    PartId::ArmRight
                } else if self.arm_left {
                    PartId::ArmLeft
                } else if self.leg_right {
                    PartId::LegRight
                } else {
                    PartId::LegLeft
                };
                assert(self@.contains(witness));
            }
        }
        empty
    }
}

/// Why a round ended.
#[derive(Clone, Copy, Debug, PartialEq, Eq, Structural)]
pub enum DeathReason {
    /// A part that was broken already took another damaging hit.
    AlreadyBroken,
    /// The head took a damaging hit.
    HeadHit,
    /// The player asked for a reset.
    ManualReset,
}

impl DeathReason {
    /// The reason in words, as it is shown to the player.
    pub open spec fn spec_message(self) -> Seq<char> {
        match self {
            DeathReason::AlreadyBroken => "hit too hard while already broken"@,
            DeathReason::HeadHit => "head hit too hard"@,
            DeathReason::ManualReset => "manual reset"@,
        }
    }

    /// The reason in words, as it is shown to the player.
    pub fn message(self) -> (message: &'static str)
        ensures
            message@ == self.spec_message(),
    {
        match self {
            DeathReason::AlreadyBroken => "hit too hard while already broken",
            DeathReason::HeadHit => "head hit too hard",
            DeathReason::ManualReset => "manual reset",
        }
    }
}

/// What is remembered of the player across ticks.
#[derive(Debug)]
pub struct PlayerData {
    /// The parts broken in this round.
    pub broken_parts: BrokenParts,
    /// Why the last round ended; empty before the first round has ended.
    pub last_death_str: String,
    /// Height of the torso when the score was last brought up to date.
    pub last_y_position: i64,
    /// World units fallen in this round.
    pub score: u64,
}

/// What a [`PlayerData`] holds, as mathematical values.
pub struct PlayerDataView {
    pub broken_parts: Set<PartId>,
    pub last_death_str: Seq<char>,
    pub last_y_position: int,
    pub score: nat,
}

impl View for PlayerData {
    type V = PlayerDataView;

    open spec fn view(&self) -> PlayerDataView {
        PlayerDataView {
            broken_parts: self.broken_parts@,
            last_death_str: self.last_death_str@,
            last_y_position: self.last_y_position as int,
            score: self.score as nat,
        }
    }
}

impl PlayerData {
    /// The data at the start of the program: nothing broken, no round lost,
    /// no score.
    pub fn new() -> (data: PlayerData)
        ensures
            data@ == (PlayerDataView {
                broken_parts: Set::empty(),
                last_death_str: Seq::empty(),
                last_y_position: PLAYER_START_Y as int,
                score: 0,
            }),
    {
        PlayerData {
            broken_parts: BrokenParts::new(),
            last_death_str: String::new(),
            last_y_position: PLAYER_START_Y,
            score: 0,
        }
    }
}

/// The inputs that steer the player, polled once per tick.
#[derive(Clone, Copy, Debug, PartialEq, Eq, Structural)]
pub struct ControlInput {
    /// Held down.
    pub move_left: bool,
    /// Held down.
    pub move_right: bool,
    /// Pressed on this tick.
    pub jump: bool,
    /// Pressed on this tick.
    pub reset: bool,
}

/// Horizontal speed of the torso after one tick of steering. A held move
/// input adds the acceleration, up to the largest speed; when both are held,
/// right wins.
pub open spec fn steered_speed(speed: int, input: ControlInput) -> int {
    if input.move_right {
        if speed <= MAX_MOVE_SPEED - MOVE_ACCELERATION {
            speed + MOVE_ACCELERATION
        } else {
            MAX_MOVE_SPEED as int
        }
    } else if input.move_left {
        if speed >= -(MAX_MOVE_SPEED - MOVE_ACCELERATION) {
            speed - MOVE_ACCELERATION
        } else {
            -MAX_MOVE_SPEED
        }
    } else {
        speed
    }
}

/// Velocity of the torso after one tick of steering. A jump sets the vertical
/// speed to the jump speed, whatever it was.
pub open spec fn steered_velocity(velocity: Vec2, input: ControlInput) -> Vec2 {
    Vec2 {
        x: steered_speed(velocity.x as int, input) as i64,
        y: if input.jump {
            JUMP_SPEED
        } else {
            velocity.y
        },
    }
}

/// Velocity of the torso after one tick of steering.
pub fn steer(velocity: Vec2, input: &ControlInput) -> (steered: Vec2)
    ensures
        steered == steered_velocity(velocity, *input),
        steered.x == steered_speed(velocity.x as int, *input),
{
    let x: i64 = if input.move_right {
        if velocity.x <= MAX_MOVE_SPEED - MOVE_ACCELERATION {
            velocity.x + MOVE_ACCELERATION
        } else {
            MAX_MOVE_SPEED
        }
    } else if input.move_left {
        if velocity.x >= -(MAX_MOVE_SPEED - MOVE_ACCELERATION) {
            velocity.x - MOVE_ACCELERATION
        } else {
            -MAX_MOVE_SPEED
        }
    } else {
        velocity.x
    };
    let y: i64 = if input.jump {
        JUMP_SPEED
    } else {
        velocity.y
    };
    Vec2 { x, y }
}

/// The ragdoll after one tick of steering: only the torso's velocity changes.
pub open spec fn steered_ragdoll(ragdoll: RagdollView, input: ControlInput) -> RagdollView {
    ragdoll.with_part(
        PartId::Torso,
        PlayerBodyPart {
            velocity: steered_velocity(ragdoll.torso().velocity, input),
            ..ragdoll.torso()
        },
    )
}

/// One tick of player control. It acts only while the game is in a round.
/// The move and jump inputs steer the torso, if there is one; the other parts
/// follow through their joints. The reset input ends the round.
pub fn player_control(
    ragdoll: &mut Option<Ragdoll>,
    input: &ControlInput,
    game_state: &mut GameState,
    player_data: &mut PlayerData,
)
    ensures
        *old(game_state) != GameState::InGame ==> {
            &&& *final(ragdoll) == *old(ragdoll)
            &&& *final(game_state) == *old(game_state)
            &&& *final(player_data) == *old(player_data)
        },
        *old(game_state) == GameState::InGame ==> {
            &&& match *old(ragdoll) {
                Some(before) => *final(ragdoll) matches Some(after) && after@ == steered_ragdoll(
                    before@,
                    *input,
                ) && after@.wf(),
                None => *final(ragdoll) is None,
            }
            &&& *final(game_state) == if input.reset {
                GameState::GameOver
            } else {
                GameState::InGame
            }
            &&& final(player_data)@ == if input.reset {
                PlayerDataView {
                    last_death_str: DeathReason::ManualReset.spec_message(),
                    ..old(player_data)@
                }
            } else {
                old(player_data)@
            }
        },
{
    if *game_state != GameState::InGame {
        return ;
    }
    match ragdoll {
        Some(live) => {
            let torso: PlayerBodyPart = live.torso();
            live.set_velocity(PartId::Torso, steer(torso.velocity, input));
        },
        None => {},
    }
    if input.reset {
        *game_state = GameState::GameOver;
        player_data.last_death_str = DeathReason::ManualReset.message().to_owned();
    }
}

/// Steering keeps the horizontal speed within the largest speed, and a jump
/// sets the vertical speed to exactly the jump speed.
pub proof fn lemma_steering_bounds(velocity: Vec2, input: ControlInput)
    ensures
        -MAX_MOVE_SPEED <= velocity.x <= MAX_MOVE_SPEED ==> -MAX_MOVE_SPEED <= steered_velocity(
            velocity,
            input,
        ).x <= MAX_MOVE_SPEED,
        input.move_right ==> steered_velocity(velocity, input).x <= MAX_MOVE_SPEED,
        !input.move_right && input.move_left ==> steered_velocity(velocity, input).x
            >= -MAX_MOVE_SPEED,
        input.jump ==> steered_velocity(velocity, input).y == JUMP_SPEED,
        !input.jump ==> steered_velocity(velocity, input).y == velocity.y,
{
}

/// The torso's velocity after a sequence of ticks of steering, with nothing
/// else acting on it.
pub open spec fn steered_through(velocity: Vec2, inputs: Seq<ControlInput>) -> Vec2
    decreases inputs.len(),
{
    if inputs.len() == 0 {
        velocity
    } else {
        steered_velocity(steered_through(velocity, inputs.drop_last()), inputs.last())
    }
}

/// Whatever the sequence of inputs, steering never takes a horizontal speed
/// that is within the largest speed beyond it.
pub proof fn lemma_speed_never_exceeds_max(velocity: Vec2, inputs: Seq<ControlInput>)
    requires
        -MAX_MOVE_SPEED <= velocity.x <= MAX_MOVE_SPEED,
    ensures
        -MAX_MOVE_SPEED <= steered_through(velocity, inputs).x <= MAX_MOVE_SPEED,
    decreases inputs.len(),
{
    if inputs.len() > 0 {
        lemma_speed_never_exceeds_max(velocity, inputs.drop_last());
        lemma_steering_bounds(steered_through(velocity, inputs.drop_last()), inputs.last());
    }
}

/// A report from the physics world: two colliders touched, and the force
/// between them was large enough to be reported.
#[derive(Debug)]
pub struct ContactForceEvent {
    /// Identity string of the first collider, if it has one.
    pub collider1: Option<String>,
    /// Identity string of the second collider, if it has one.
    pub collider2: Option<String>,
    /// Magnitude of the force between the two.
    pub total_force_magnitude: u64,
}

/// What the damage rules read and write: the state of the game, the broken
/// parts and the reason of the last death.
pub struct DamageState {
    pub game_state: GameState,
    pub broken_parts: Set<PartId>,
    pub last_death_str: Seq<char>,
}

/// The part of the damage rules' state that lives in the player's data.
pub open spec fn damage_state(game_state: GameState, player_data: PlayerDataView) -> DamageState {
    DamageState {
        game_state,
        broken_parts: player_data.broken_parts,
        last_death_str: player_data.last_death_str,
    }
}

/// The player's part that a contact between colliders with the identity
/// strings `first` and `second` damages, if it damages one.
///
/// A contact between two colliders of the player is no damage, nor is one
/// in which the player has no share. Otherwise the player's collider must
/// carry the identity of a part of the ragdoll, and the force must exceed
/// the threshold of that part.
pub open spec fn struck_by_name(
    first: Seq<char>,
    second: Seq<char>,
    force: u64,
    ragdoll: RagdollView,
) -> Option<PartId> {
    if is_player_name(first) == is_player_name(second) {
        None
    } else {
        let name = if is_player_name(first) {
            first
        } else {
            second
        };
        match part_named(name) {
            Some(id) => match ragdoll.part(id).force_threshold {
                Some(threshold) => if force > threshold {
                    Some(id)
                } else {
                    None
                },
                None => None,
            },
            None => None,
        }
    }
}

/// The player's part that a contact damages, if it damages one. A contact
/// in which a collider has no identity is skipped: it damages nothing.
pub open spec fn struck_part(event: ContactForceEvent, ragdoll: RagdollView) -> Option<PartId> {
    match (event.collider1, event.collider2) {
        (Some(first), Some(second)) => struck_by_name(
            first@,
            second@,
            event.total_force_magnitude,
            ragdoll,
        ),
        _ => None,
    }
}

/// The damage rules for one damaging hit on `part`.
///
/// Outside a round nothing happens. A hit on a part that is broken already
/// ends the round. Any other hit breaks the part, and ends the round if the
/// part is the head.
pub open spec fn hit_part(state: DamageState, part: PartId) -> DamageState {
    if state.game_state != GameState::InGame {
        state
    } else if state.broken_parts.contains(part) {
        DamageState {
            game_state: GameState::GameOver,
            last_death_str: DeathReason::AlreadyBroken.spec_message(),
            ..state
        }
    } else if part == PartId::Head {
        DamageState {
            game_state: GameState::GameOver,
            broken_parts: state.broken_parts.insert(part),
            last_death_str: DeathReason::HeadHit.spec_message(),
        }
    } else {
        DamageState { broken_parts: state.broken_parts.insert(part), ..state }
    }
}

/// The damage rules for one contact.
pub open spec fn after_contact(
    state: DamageState,
    event: ContactForceEvent,
    ragdoll: RagdollView,
) -> DamageState {
    match struck_part(event, ragdoll) {
        Some(part) => hit_part(state, part),
        None => state,
    }
}

/// The damage rules for the contacts of one tick, taken in order.
pub open spec fn after_contacts(
    state: DamageState,
    events: Seq<ContactForceEvent>,
    ragdoll: RagdollView,
) -> DamageState
    decreases events.len(),
{
    if events.len() == 0 {
        state
    } else {
        after_contact(after_contacts(state, events.drop_last(), ragdoll), events.last(), ragdoll)
    }
}

/// The player's part that a contact damages, if it damages one.
pub fn find_struck_part(event: &ContactForceEvent, ragdoll: &Ragdoll) -> (part: Option<PartId>)
    ensures
        part == struck_part(*event, ragdoll@),
{
    match &event.collider1 {
        Some(first) => match &event.collider2 {
            Some(second) => {
                let first_is_player: bool = names_player(first.as_str());
                if first_is_player == names_player(second.as_str()) {
                    return None;
                }
                let named: Option<PartId> = if first_is_player {
                    PartId::from_name(first.as_str())
                } else {
                    PartId::from_name(second.as_str())
                };
                match named {
                    Some(id) => match ragdoll.part(id).force_threshold {
                        Some(threshold) => if event.total_force_magnitude > threshold {
                            Some(id)
                        } else {
                            None
                        },
                        None => None,
                    },
                    None => None,
                }
            },
            None => None,
        },
        None => None,
    }
}

/// Applies the damage rules to one damaging hit on `part`.
pub fn apply_hit(part: PartId, player_data: &mut PlayerData, game_state: &mut GameState)
    ensures
        damage_state(*final(game_state), final(player_data)@) == hit_part(
            damage_state(*old(game_state), old(player_data)@),
            part,
        ),
        final(player_data).score == old(player_data).score,
        final(player_data).last_y_position == old(player_data).last_y_position,
{
    if *game_state != GameState::InGame {
        return ;
    }
    if player_data.broken_parts.contains(part) {
        *game_state = GameState::GameOver;
        player_data.last_death_str = DeathReason::AlreadyBroken.message().to_owned();
        return ;
    }
    player_data.broken_parts.insert(part);
    if part == PartId::Head {
        *game_state = GameState::GameOver;
        player_data.last_death_str = DeathReason::HeadHit.message().to_owned();
    }
}

/// Drains the contacts of one tick through the damage rules, in order.
///
/// Without a ragdoll no contact can be attributed to a part, so nothing
/// happens. The score is not touched.
pub fn handle_collision(
    events: &Vec<ContactForceEvent>,
    ragdoll: &Option<Ragdoll>,
    player_data: &mut PlayerData,
    game_state: &mut GameState,
)
    ensures
        damage_state(*final(game_state), final(player_data)@) == match *ragdoll {
            Some(r) => after_contacts(
                damage_state(*old(game_state), old(player_data)@),
                events@,
                r@,
            ),
            None => damage_state(*old(game_state), old(player_data)@),
        },
        final(player_data).score == old(player_data).score,
        final(player_data).last_y_position == old(player_data).last_y_position,
{
    match ragdoll {
        Some(live) => {
            proof {
                use_type_invariant(live);
            }
            let ghost start = damage_state(*game_state, player_data@);
            let mut i: usize = 0;
            while i < events.len()
                invariant
                    i <= events.len(),
                    live@.wf(),
                    damage_state(*game_state, player_data@) == after_contacts(
                        start,
                        events@.subrange(0, i as int),
                        live@,
                    ),
                    player_data.score == old(player_data).score,
                    player_data.last_y_position == old(player_data).last_y_position,
                decreases events.len() - i,
            {
                proof {
                    assert(events@.subrange(0, i + 1).drop_last() == events@.subrange(0, i as int));
                }
                match find_struck_part(&events[i], live) {
                    Some(part) => {
                        apply_hit(part, player_data, game_state);
                    },
                    None => {},
                }
                i += 1;
            }
            proof {
                assert(events@.subrange(0, events.len() as int) == events@);
            }
        },
        None => {},
    }
}

/// Only a contact between the player and something else can do damage: one
/// between two colliders of the player, or between two of the world, changes
/// nothing.
pub proof fn lemma_only_mixed_contacts_damage(
    state: DamageState,
    event: ContactForceEvent,
    ragdoll: RagdollView,
)
    requires
        event.collider1 matches Some(first) && event.collider2 matches Some(second)
            && is_player_name(first@) == is_player_name(second@),
    ensures
        struck_part(event, ragdoll) is None,
        after_contact(state, event, ragdoll) == state,
{
}

/// A contact in which a collider has no identity is skipped: whatever the
/// other collider and the force, it changes nothing.
pub proof fn lemma_unidentified_contacts_are_skipped(
    state: DamageState,
    event: ContactForceEvent,
    ragdoll: RagdollView,
)
    requires
        event.collider1 is None || event.collider2 is None,
    ensures
        struck_part(event, ragdoll) is None,
        after_contact(state, event, ragdoll) == state,
{
}

/// A contact between a part of the player and something else strikes the
/// part just when the force exceeds the part's threshold, whichever of the
/// two colliders the part is.
pub proof fn lemma_contact_strikes_above_threshold(
    event: ContactForceEvent,
    ragdoll: RagdollView,
    id: PartId,
)
    requires
        ragdoll.wf(),
        event.collider1 matches Some(first) && event.collider2 matches Some(second) && ((first@
            == id.spec_name() && !is_player_name(second@)) || (second@ == id.spec_name()
            && !is_player_name(first@))),
    ensures
        struck_part(event, ragdoll) == match ragdoll.part(id).force_threshold {
            Some(threshold) if event.total_force_magnitude > threshold => Some(id),
            _ => None,
        },
{
    lemma_part_names_are_player_names(id);
    lemma_names_unique(id, id);
}

/// The damage rules never mend a part: whatever was broken stays broken.
pub proof fn lemma_damage_only_grows(
    state: DamageState,
    events: Seq<ContactForceEvent>,
    ragdoll: RagdollView,
    part: PartId,
)
    requires
        state.broken_parts.contains(part),
    ensures
        after_contacts(state, events, ragdoll).broken_parts.contains(part),
    decreases events.len(),
{
    if events.len() > 0 {
        lemma_damage_only_grows(state, events.drop_last(), ragdoll, part);
    }
}

/// A first damaging hit on a part other than the head breaks the part and
/// lets the round go on.
pub proof fn lemma_first_hit_breaks(state: DamageState, part: PartId)
    requires
        state.game_state == GameState::InGame,
        !state.broken_parts.contains(part),
        part != PartId::Head,
    ensures
        hit_part(state, part).game_state == GameState::InGame,
        hit_part(state, part).broken_parts == state.broken_parts.insert(part),
        hit_part(state, part).last_death_str == state.last_death_str,
{
}

/// A damaging hit on a broken part, or on the head, ends the round, and says
/// why.
pub proof fn lemma_fatal_hit_ends_round(state: DamageState, part: PartId)
    requires
        state.game_state == GameState::InGame,
        state.broken_parts.contains(part) || part == PartId::Head,
    ensures
        hit_part(state, part).game_state == GameState::GameOver,
        state.broken_parts.contains(part) ==> hit_part(state, part).last_death_str
            == DeathReason::AlreadyBroken.spec_message(),
        !state.broken_parts.contains(part) ==> hit_part(state, part).last_death_str
            == DeathReason::HeadHit.spec_message(),
        hit_part(state, part).broken_parts == state.broken_parts.insert(part),
{
    assert(state.broken_parts.contains(part) ==> state.broken_parts.insert(part)
        =~= state.broken_parts);
}

/// A round ends once: after it has ended, no contact changes anything, and
/// the damage rules never bring a game back into a round.
pub proof fn lemma_round_ends_once(
    state: DamageState,
    events: Seq<ContactForceEvent>,
    ragdoll: RagdollView,
)
    ensures
        state.game_state != GameState::InGame ==> after_contacts(state, events, ragdoll) == state,
        after_contacts(state, events, ragdoll).game_state == GameState::InGame ==> state.game_state
            == GameState::InGame,
    decreases events.len(),
{
    if events.len() > 0 {
        lemma_round_ends_once(state, events.drop_last(), ragdoll);
    }
}

/// A second damaging hit on the same part ends the round: whatever the part,
/// two hits in a row on it during a round leave the game over.
pub proof fn lemma_second_hit_ends_round(state: DamageState, part: PartId)
    requires
        state.game_state == GameState::InGame,
    ensures
        hit_part(hit_part(state, part), part).game_state == GameState::GameOver,
{
}

/// How far recentering lifts every part when the torso stands at `torso_y`.
pub open spec fn recenter_offset(torso_y: int) -> int {
    RESET_HEIGHT - torso_y
}

/// Whether every part can be lifted by `offset`: the new heights must be
/// representable.
pub open spec fn shift_fits(ragdoll: RagdollView, offset: int) -> bool {
    forall|i: int|
        0 <= i < ragdoll.parts.len() ==> i64::MIN <= (#[trigger] ragdoll.parts[i]).position.y
            + offset <= i64::MAX
}

/// The ragdoll with every part lifted by `offset`. Horizontal positions,
/// velocities and everything else stay as they are.
pub open spec fn shifted(ragdoll: RagdollView, offset: int) -> RagdollView {
    RagdollView {
        parts: Seq::new(
            ragdoll.parts.len(),
            |i: int|
                PlayerBodyPart {
                    position: Vec2 {
                        x: ragdoll.parts[i].position.x,
                        y: (ragdoll.parts[i].position.y + offset) as i64,
                    },
                    ..ragdoll.parts[i]
                },
        ),
        joints: ragdoll.joints,
    }
}

/// Whether recentering acts on the ragdoll: the torso has fallen below the
/// least height, and the lift is representable for every part.
pub open spec fn recenters(ragdoll: RagdollView) -> bool {
    &&& ragdoll.torso().position.y < MIN_HEIGHT
    &&& shift_fits(ragdoll, recenter_offset(ragdoll.torso().position.y as int))
}

/// The ragdoll after the recentering step of one tick.
pub open spec fn recentered(ragdoll: RagdollView) -> RagdollView {
    if recenters(ragdoll) {
        shifted(ragdoll, recenter_offset(ragdoll.torso().position.y as int))
    } else {
        ragdoll
    }
}

/// Whether every part of the ragdoll can be lifted by `offset`.
fn check_shift_fits(ragdoll: &Ragdoll, offset: i128) -> (fits: bool)
    requires
        0 <= offset <= RESET_HEIGHT - i64::MIN,
    ensures
        fits == shift_fits(ragdoll@, offset as int),
{
    let parts: &Vec<PlayerBodyPart> = ragdoll.parts();
    let mut i: usize = 0;
    while i < PART_COUNT
        invariant
            i <= PART_COUNT,
            parts@ == ragdoll@.parts,
            parts@.len() == PART_COUNT,
            0 <= offset <= RESET_HEIGHT - i64::MIN,
            forall|k: int|
                0 <= k < i ==> i64::MIN <= (#[trigger] parts@[k]).position.y + offset <= i64::MAX,
        decreases PART_COUNT - i,
    {
        let lifted: i128 = parts[i].position.y as i128 + offset;
        if lifted > i64::MAX as i128 {
            return false;
        }
        i += 1;
    }
    true
}

/// The recentering step of one tick. Once the torso has fallen below
/// `MIN_HEIGHT`, every part of the ragdoll is lifted by the same amount, the
/// one that brings the torso to `RESET_HEIGHT`. Without a ragdoll, above that
/// height, or where a lifted part would leave the representable heights,
/// nothing happens.
pub fn recenter_world(ragdoll: &mut Option<Ragdoll>)
    ensures
        match *old(ragdoll) {
            Some(before) => *final(ragdoll) matches Some(after) && after@ == recentered(before@)
                && after@.wf(),
            None => *final(ragdoll) is None,
        },
{
    match ragdoll {
        Some(live) => {
            let torso_y: i64 = live.torso().position.y;
            if torso_y < MIN_HEIGHT {
                let offset: i128 = RESET_HEIGHT as i128 - torso_y as i128;
                if check_shift_fits(live, offset) {
                    let ghost before = live@;
                    let mut i: usize = 0;
                    while i < PART_COUNT
                        invariant
                            i <= PART_COUNT,
                            before.wf(),
                            live@.wf(),
                            shift_fits(before, offset as int),
                            live@.joints == before.joints,
                            forall|k: int|
                                0 <= k < i ==> (#[trigger] live@.parts[k]) == shifted(
                                    before,
                                    offset as int,
                                ).parts[k],
                            forall|k: int|
                                i <= k < PART_COUNT ==> (#[trigger] live@.parts[k])
                                    == before.parts[k],
                        decreases PART_COUNT - i,
                    {
                        match PartId::from_index(i) {
                            Some(id) => {
                                let part: PlayerBodyPart = live.part(id);
                                let lifted: i128 = part.position.y as i128 + offset;
                                live.set_position(
                                    id,
                                    Vec2 { x: part.position.x, y: lifted as i64 },
                                );
                            },
                            None => {},
                        }
                        i += 1;
                    }
                    proof {
                        assert(live@.parts =~= shifted(before, offset as int).parts);
                    }
                }
            }
        },
        None => {},
    }
}

/// Lifting a ragdoll moves no part sideways, changes no velocity, and keeps
/// the vertical distance between any two parts.
pub proof fn lemma_shift_keeps_spacing(ragdoll: RagdollView, offset: int, a: PartId, b: PartId)
    requires
        ragdoll.wf(),
        shift_fits(ragdoll, offset),
    ensures
        shifted(ragdoll, offset).wf(),
        shifted(ragdoll, offset).part(a).position.x == ragdoll.part(a).position.x,
        shifted(ragdoll, offset).part(a).position.y == ragdoll.part(a).position.y + offset,
        shifted(ragdoll, offset).part(a).velocity == ragdoll.part(a).velocity,
        shifted(ragdoll, offset).part(a).position.y - shifted(ragdoll, offset).part(b).position.y
            == ragdoll.part(a).position.y - ragdoll.part(b).position.y,
{
}

/// Recentering leaves the torso's horizontal position, every velocity and
/// the vertical distance between any two parts as they were, and where it
/// acts it brings the torso to `RESET_HEIGHT`.
pub proof fn lemma_recentering_keeps_spacing(ragdoll: RagdollView, a: PartId, b: PartId)
    requires
        ragdoll.wf(),
    ensures
        recentered(ragdoll).wf(),
        recentered(ragdoll).torso().position.x == ragdoll.torso().position.x,
        recentered(ragdoll).part(a).position.x == ragdoll.part(a).position.x,
        recentered(ragdoll).part(a).velocity == ragdoll.part(a).velocity,
        recentered(ragdoll).part(a).position.y - recentered(ragdoll).part(b).position.y
            == ragdoll.part(a).position.y - ragdoll.part(b).position.y,
        recenters(ragdoll) ==> recentered(ragdoll).torso().position.y == RESET_HEIGHT,
        !recenters(ragdoll) ==> recentered(ragdoll) == ragdoll,
{
    if recenters(ragdoll) {
        let offset = recenter_offset(ragdoll.torso().position.y as int);
        lemma_shift_keeps_spacing(ragdoll, offset, a, b);
        lemma_shift_keeps_spacing(ragdoll, offset, PartId::Torso, b);
    }
}

/// The score after the scoring step of one tick, with the torso at
/// `torso_y`: every world unit that the torso has fallen since the last step
/// counts once, and the score stops at the largest representable value.
pub open spec fn score_after(score: nat, last_y: int, torso_y: int) -> nat {
    let fallen = if torso_y < last_y {
        last_y - torso_y
    } else {
        0
    };
    if score + fallen > u64::MAX {
        u64::MAX as nat
    } else {
        (score + fallen) as nat
    }
}

/// The scoring step of one tick. During a round, and while there is a torso,
/// the distance fallen since the last step is added to the score, and the
/// torso's height is remembered for the next step.
pub fn increment_score(
    ragdoll: &Option<Ragdoll>,
    game_state: &GameState,
    player_data: &mut PlayerData,
)
    ensures
        final(player_data)@ == match *ragdoll {
            Some(r) if *game_state == GameState::InGame => PlayerDataView {
                score: score_after(
                    old(player_data)@.score,
                    old(player_data)@.last_y_position,
                    r@.torso().position.y as int,
                ),
                last_y_position: r@.torso().position.y as int,
                ..old(player_data)@
            },
            _ => old(player_data)@,
        },
        final(player_data).score >= old(player_data).score,
{
    if *game_state != GameState::InGame {
        return ;
    }
    match ragdoll {
        Some(live) => {
            let torso_y: i64 = live.torso().position.y;
            if torso_y < player_data.last_y_position {
                let fallen: i128 = player_data.last_y_position as i128 - torso_y as i128;
                let total: i128 = player_data.score as i128 + fallen;
                if total > u64::MAX as i128 {
                    player_data.score = u64::MAX;
                } else {
                    player_data.score = total as u64;
                }
            }
            player_data.last_y_position = torso_y;
        },
        None => {},
    }
}

} // verus!
