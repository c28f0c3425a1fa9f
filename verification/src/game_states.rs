//! The three states of the game, the world that the rules work on, and the
//! order in which the rules are applied on every tick.

use crate::environment::{
    manage_obstacles, obstacles_stepped, obstacles_untouched, spawn_due, well_spaced,
    ObstacleChanges, ObstacleObject, ObstaclesData,
};
use crate::geometry::Vec2;
use crate::player::{
    after_contacts, damage_state, handle_collision, increment_score, player_control,
    recenter_world, recentered, score_after, steered_ragdoll, ContactForceEvent, ControlInput,
    DeathReason, PlayerData, PlayerDataView,
};
use crate::player_setup::{
    lemma_blueprints_wf, lemma_parts_unique, player_blueprint, setup_player, teardown_ragdoll,
    PartId, Ragdoll, RagdollView, PLAYER_START_Y,
};
use vstd::prelude::*;

verus! {

/// Where the game stands. Exactly one state is active at a time.
#[derive(Clone, Copy, Debug, PartialEq, Eq, Hash, Structural)]
pub enum GameState {
    /// Waiting for the start input; the ragdoll is inert.
    PreGame,
    /// The round runs: control, damage, spawning and scoring are active.
    InGame,
    /// The round has ended; the reason and the score are on display.
    GameOver,
}

/// Everything that the rules of the game read and write from tick to tick.
#[derive(Debug)]
pub struct World {
    pub game_state: GameState,
    pub player_data: PlayerData,
    /// The ragdoll of the current round, if there is one.
    pub ragdoll: Option<Ragdoll>,
    /// The obstacles that are alive, oldest first.
    pub obstacles: Vec<ObstacleObject>,
    pub obstacles_data: ObstaclesData,
}

/// What a [`World`] holds, as mathematical values. The state of the
/// generator is no part of it.
pub struct WorldView {
    pub game_state: GameState,
    pub player_data: PlayerDataView,
    pub ragdoll: Option<RagdollView>,
    pub obstacles: Seq<ObstacleObject>,
    pub last_spawned: u64,
}

impl View for World {
    type V = WorldView;

    open spec fn view(&self) -> WorldView {
        WorldView {
            game_state: self.game_state,
            player_data: self.player_data@,
            ragdoll: match self.ragdoll {
                Some(ragdoll) => Some(ragdoll@),
                None => None,
            },
            obstacles: self.obstacles@,
            last_spawned: self.obstacles_data.last_spawned,
        }
    }
}

impl World {
    /// The world at the start of the program: before the first round, with an
    /// inert ragdoll in its starting pose, no obstacles, and a generator
    /// seeded with `seed`.
    pub fn new(seed: u64, now_ms: u64) -> (world: World)
        ensures
            world@ == (WorldView {
                game_state: GameState::PreGame,
                player_data: PlayerDataView {
                    broken_parts: Set::empty(),
                    last_death_str: Seq::empty(),
                    last_y_position: PLAYER_START_Y as int,
                    score: 0,
                },
                ragdoll: Some(player_blueprint()),
                obstacles: Seq::empty(),
                last_spawned: now_ms,
            }),
    {
        World {
            game_state: GameState::PreGame,
            player_data: PlayerData::new(),
            ragdoll: Some(setup_player()),
            obstacles: Vec::new(),
            obstacles_data: ObstaclesData::new(seed, now_ms),
        }
    }
}

/// The player's data at the start of a round: nothing is broken, nothing is
/// scored, and the score is counted from the torso's starting height. The
/// reason of the last death stays.
pub open spec fn fresh_player_data(before: PlayerDataView) -> PlayerDataView {
    PlayerDataView {
        broken_parts: Set::empty(),
        last_death_str: before.last_death_str,
        last_y_position: PLAYER_START_Y as int,
        score: 0,
    }
}

/// The world after the start input, given or not. Before the first round the
/// input starts one: a new ragdoll stands in the starting pose, the player's
/// data is fresh, and the game is in a round. In any other state, or without
/// the input, nothing happens.
pub open spec fn after_pre_game_input(before: WorldView, start: bool) -> WorldView {
    if start && before.game_state == GameState::PreGame {
        WorldView {
            game_state: GameState::InGame,
            player_data: fresh_player_data(before.player_data),
            ragdoll: Some(player_blueprint()),
            ..before
        }
    } else {
        before
    }
}

/// The world after the restart input, given or not. After a round has ended
/// the input starts the next one: the obstacles are gone, a new ragdoll
/// stands in the starting pose, the player's data is fresh, and the game is
/// in a round. In any other state, or without the input, nothing happens.
pub open spec fn after_game_over_input(before: WorldView, restart: bool) -> WorldView {
    if restart && before.game_state == GameState::GameOver {
        WorldView {
            game_state: GameState::InGame,
            player_data: fresh_player_data(before.player_data),
            ragdoll: Some(player_blueprint()),
            obstacles: Seq::empty(),
            ..before
        }
    } else {
        before
    }
}

/// The world after one tick of player control. During a round the torso is
/// steered, and the reset input ends the round; in any other state nothing
/// happens.
pub open spec fn after_control(before: WorldView, input: ControlInput) -> WorldView {
    if before.game_state == GameState::InGame {
        WorldView {
            game_state: if input.reset {
                GameState::GameOver
            } else {
                GameState::InGame
            },
            player_data: if input.reset {
                PlayerDataView {
                    last_death_str: DeathReason::ManualReset.spec_message(),
                    ..before.player_data
                }
            } else {
                before.player_data
            },
            ragdoll: match before.ragdoll {
                Some(ragdoll) => Some(steered_ragdoll(ragdoll, input)),
                None => None,
            },
            ..before
        }
    } else {
        before
    }
}

/// The world after the contacts of one tick have gone through the damage
/// rules.
pub open spec fn after_damage(before: WorldView, contacts: Seq<ContactForceEvent>) -> WorldView {
    match before.ragdoll {
        Some(ragdoll) => {
            let damaged = after_contacts(
                damage_state(before.game_state, before.player_data),
                contacts,
                ragdoll,
            );
            WorldView {
                game_state: damaged.game_state,
                player_data: PlayerDataView {
                    broken_parts: damaged.broken_parts,
                    last_death_str: damaged.last_death_str,
                    ..before.player_data
                },
                ..before
            }
        },
        None => before,
    }
}

/// The world after the recentering step of one tick.
pub open spec fn after_recentering(before: WorldView) -> WorldView {
    WorldView {
        ragdoll: match before.ragdoll {
            Some(ragdoll) => Some(recentered(ragdoll)),
            None => None,
        },
        ..before
    }
}

/// The world after the scoring step of one tick.
pub open spec fn after_scoring(before: WorldView) -> WorldView {
    match before.ragdoll {
        Some(ragdoll) if before.game_state == GameState::InGame => WorldView {
            player_data: PlayerDataView {
                score: score_after(
                    before.player_data.score,
                    before.player_data.last_y_position,
                    ragdoll.torso().position.y as int,
                ),
                last_y_position: ragdoll.torso().position.y as int,
                ..before.player_data
            },
            ..before
        },
        _ => before,
    }
}

/// Whether `after` is what the obstacle step of one tick can make of
/// `before`: only the obstacles and the time of the last spawn differ, and
/// they differ as the step allows.
pub open spec fn obstacles_managed(
    before: WorldView,
    now_ms: u64,
    changes: ObstacleChanges,
    after: WorldView,
) -> bool {
    &&& after == (WorldView {
        obstacles: after.obstacles,
        last_spawned: after.last_spawned,
        ..before
    })
    &&& match before.ragdoll {
        Some(ragdoll) if before.game_state == GameState::InGame => obstacles_stepped(
            before.obstacles,
            before.last_spawned,
            ragdoll.torso().position.y as int,
            now_ms,
            changes,
            after.obstacles,
            after.last_spawned,
        ),
        _ => obstacles_untouched(
            before.obstacles,
            before.last_spawned,
            changes,
            after.obstacles,
            after.last_spawned,
        ),
    }
}

/// Whether `after` is what the second half of a tick can make of `before`.
/// The rules are applied in a fixed order: first all contacts go through the
/// damage rules; then the obstacle step runs, if the round has not just
/// ended; then the ragdoll is recentered; and last the score is brought up to
/// date.
pub open spec fn tick_ended(
    before: WorldView,
    contacts: Seq<ContactForceEvent>,
    now_ms: u64,
    changes: ObstacleChanges,
    after: WorldView,
) -> bool {
    let damaged = after_damage(before, contacts);
    let managed = WorldView {
        obstacles: after.obstacles,
        last_spawned: after.last_spawned,
        ..damaged
    };
    &&& obstacles_managed(damaged, now_ms, changes, managed)
    &&& after == after_scoring(after_recentering(managed))
}

/// Clears away what the time before the first round has left: the inert
/// ragdoll goes, and the player's data is made fresh.
pub fn despawn_pre_game_ui(ragdoll: &mut Option<Ragdoll>, player_data: &mut PlayerData)
    ensures
        *final(ragdoll) is None,
        final(player_data)@ == fresh_player_data(old(player_data)@),
{
    teardown_ragdoll(ragdoll);
    player_data.broken_parts.clear();
    player_data.score = 0;
    player_data.last_y_position = PLAYER_START_Y;
}

/// Clears away what a finished round has left: the ragdoll and every
/// obstacle go, and the player's data is made fresh. The obstacles that were
/// removed are handed back, in their order.
pub fn despawn_game_over_ui(
    ragdoll: &mut Option<Ragdoll>,
    obstacles: &mut Vec<ObstacleObject>,
    player_data: &mut PlayerData,
) -> (despawned: Vec<ObstacleObject>)
    ensures
        *final(ragdoll) is None,
        final(obstacles)@ == Seq::<ObstacleObject>::empty(),
        despawned@ == old(obstacles)@,
        final(player_data)@ == fresh_player_data(old(player_data)@),
{
    teardown_ragdoll(ragdoll);
    let mut despawned: Vec<ObstacleObject> = Vec::new();
    despawned.append(obstacles);
    player_data.broken_parts.clear();
    player_data.score = 0;
    player_data.last_y_position = PLAYER_START_Y;
    despawned
}

/// The start input. Before the first round it starts one; in any other
/// state, or without the input, nothing happens.
pub fn handle_pre_game_input(world: &mut World, start: bool)
    ensures
        final(world)@ == after_pre_game_input(old(world)@, start),
        final(world).obstacles_data == old(world).obstacles_data,
{
    if start && world.game_state == GameState::PreGame {
        despawn_pre_game_ui(&mut world.ragdoll, &mut world.player_data);
        world.ragdoll = Some(setup_player());
        world.game_state = GameState::InGame;
    }
}

/// The restart input. After a round has ended it starts the next one, and
/// hands back the obstacles that it has removed; in any other state, or
/// without the input, nothing happens.
pub fn handle_game_over_input(world: &mut World, restart: bool) -> (despawned: Vec<ObstacleObject>)
    ensures
        final(world)@ == after_game_over_input(old(world)@, restart),
        final(world).obstacles_data == old(world).obstacles_data,
        despawned@ == if restart && old(world).game_state == GameState::GameOver {
            old(world).obstacles@
        } else {
            Seq::empty()
        },
{
    if restart && world.game_state == GameState::GameOver {
        let despawned: Vec<ObstacleObject> = despawn_game_over_ui(
            &mut world.ragdoll,
            &mut world.obstacles,
            &mut world.player_data,
        );
        world.ragdoll = Some(setup_player());
        world.game_state = GameState::InGame;
        despawned
    } else {
        Vec::new()
    }
}

/// The inputs of one tick.
#[derive(Clone, Copy, Debug, PartialEq, Eq, Structural)]
pub struct TickInput {
    /// The inputs that steer the player.
    pub control: ControlInput,
    /// The start input, which also restarts; pressed on this tick.
    pub start: bool,
}

/// The world after the first half of a tick: the inputs are handled as the
/// state of the game at the start of the tick asks.
pub open spec fn after_input(before: WorldView, input: TickInput) -> WorldView {
    match before.game_state {
        GameState::PreGame => after_pre_game_input(before, input.start),
        GameState::InGame => after_control(before, input.control),
        GameState::GameOver => after_game_over_input(before, input.start),
    }
}

/// The first half of a tick, before the physics world takes its step: the
/// inputs are handled. A round that starts on this tick is not steered on it,
/// and a round that ends on it is not restarted on it. The obstacles that a
/// restart has removed are handed back.
pub fn begin_tick(world: &mut World, input: &TickInput) -> (despawned: Vec<ObstacleObject>)
    ensures
        final(world)@ == after_input(old(world)@, *input),
        final(world).obstacles_data == old(world).obstacles_data,
        despawned@ == if input.start && old(world).game_state == GameState::GameOver {
            old(world).obstacles@
        } else {
            Seq::empty()
        },
{
    match world.game_state {
        GameState::PreGame => {
            handle_pre_game_input(world, input.start);
            Vec::new()
        },
        GameState::InGame => {
            player_control(
                &mut world.ragdoll,
                &input.control,
                &mut world.game_state,
                &mut world.player_data,
            );
            Vec::new()
        },
        GameState::GameOver => handle_game_over_input(world, input.start),
    }
}

/// The second half of a tick, after the physics world has taken its step and
/// the positions and velocities of the bodies have been brought up to date.
/// The contacts of the step are drained; then obstacles are spawned and
/// removed, the ragdoll is recentered and the score is brought up to date.
///
/// The generator is used only where the obstacle step makes its trial: with
/// the round lost or not running, without a ragdoll, or before a spawn is due
/// it stays as it is.
pub fn end_tick(
    world: &mut World,
    contacts: &Vec<ContactForceEvent>,
    now_ms: u64,
) -> (changes: ObstacleChanges)
    ensures
        tick_ended(old(world)@, contacts@, now_ms, changes, final(world)@),
        (after_damage(old(world)@, contacts@).game_state != GameState::InGame
            || old(world).ragdoll is None || !spawn_due(
            old(world).obstacles_data.last_spawned as int,
            now_ms as int,
        )) ==> final(world).obstacles_data.rng == old(world).obstacles_data.rng,
        well_spaced(old(world).obstacles@) ==> well_spaced(final(world).obstacles@),
{
    handle_collision(contacts, &world.ragdoll, &mut world.player_data, &mut world.game_state);
    let changes: ObstacleChanges = manage_obstacles(
        &mut world.obstacles_data,
        &mut world.obstacles,
        &world.ragdoll,
        &world.game_state,
        now_ms,
    );
    recenter_world(&mut world.ragdoll);
    increment_score(&world.ragdoll, &world.game_state, &mut world.player_data);
    changes
}

/// At the start of a round nothing is broken, the score is 0, and the
/// ragdoll is the starting one, which has the shape of a ragdoll: exactly one
/// torso and exactly one head.
pub proof fn lemma_round_starts_fresh(before: WorldView, i: int)
    requires
        before.game_state == GameState::GameOver,
        0 <= i < player_blueprint().parts.len(),
    ensures
        ({
            let after = after_game_over_input(before, true);
            &&& after.game_state == GameState::InGame
            &&& after.player_data.broken_parts == Set::<PartId>::empty()
            &&& after.player_data.score == 0
            &&& after.ragdoll matches Some(ragdoll) && ragdoll.wf() && (ragdoll.parts[i].id
                == PartId::Torso <==> i == 0) && (ragdoll.parts[i].id == PartId::Head <==> i == 1)
        }),
{
    lemma_blueprints_wf(Vec2 { x: 0, y: 0 });
    lemma_parts_unique(player_blueprint(), PartId::Torso, i);
    lemma_parts_unique(player_blueprint(), PartId::Head, i);
}

/// A round ends on the tick on which it is lost: once the contacts of a tick
/// have ended the round, the obstacle step and the scoring step of that tick
/// do nothing.
pub proof fn lemma_lost_round_stops_at_once(
    before: WorldView,
    contacts: Seq<ContactForceEvent>,
    now_ms: u64,
    changes: ObstacleChanges,
    after: WorldView,
)
    requires
        tick_ended(before, contacts, now_ms, changes, after),
        after_damage(before, contacts).game_state != GameState::InGame,
    ensures
        after == after_recentering(after_damage(before, contacts)),
        after.obstacles == before.obstacles,
        after.last_spawned == before.last_spawned,
        after.player_data.score == before.player_data.score,
        !changes.trial,
        !changes.spawned,
        changes.despawned@.len() == 0,
{
}

/// The score never goes down while the rules are applied: not in the second
/// half of a tick, and in the first half only where a round starts, which
/// sets it to 0.
pub proof fn lemma_score_never_goes_down(
    before: WorldView,
    input: TickInput,
    contacts: Seq<ContactForceEvent>,
    now_ms: u64,
    changes: ObstacleChanges,
    after: WorldView,
)
    requires
        before.player_data.score <= u64::MAX,
    ensures
        tick_ended(before, contacts, now_ms, changes, after) ==> after.player_data.score
            >= before.player_data.score,
        after_input(before, input).player_data.score == if input.start && before.game_state
            != GameState::InGame {
            0
        } else {
            before.player_data.score
        },
{
}

} // verus!
