//! What a theme needs to know of the game: which colour slot a body falls
//! into, and which theme comes next.

use crate::environment::{lemma_world_names_are_not_player_names, ObstacleObject, Wall};
use crate::player_setup::{
    is_player_name, lemma_names_unique, lemma_part_names_are_player_names, names_player, PartId,
};
use crate::text::{contains_text, occurs_at, occurs_in, same_text};
use vstd::arithmetic::div_mod::{lemma_add_mod_noop_right, lemma_mod_self_0, lemma_small_mod};
use vstd::prelude::*;

verus! {

/// The colour slots of a theme that bodies fall into.
#[derive(Clone, Copy, Debug, PartialEq, Eq, Structural)]
pub enum ThemeSlot {
    /// The player's head, which may also carry a texture.
    PlayerHead,
    /// Every other part of the player.
    PlayerBody,
    Wall,
    Obstacle,
}

/// The tag that every identity string of an obstacle holds.
pub open spec fn obstacle_tag() -> Seq<char> {
    "obstacle"@
}

/// The slot of the body with the given identity string, if it has one. The
/// head is told from the other parts of the player by its full name; a wall
/// by its full name; an obstacle by the obstacle tag.
pub open spec fn slot_of(name: Seq<char>) -> Option<ThemeSlot> {
    if name == PartId::Head.spec_name() {
        Some(ThemeSlot::PlayerHead)
    } else if is_player_name(name) {
        Some(ThemeSlot::PlayerBody)
    } else if name == Wall::spec_name() {
        Some(ThemeSlot::Wall)
    } else if occurs_in(name, obstacle_tag()) {
        Some(ThemeSlot::Obstacle)
    } else {
        None
    }
}

/// The slot of the body with the given identity string, if it has one.
pub fn theme_slot(name: &str) -> (slot: Option<ThemeSlot>)
    ensures
        slot == slot_of(name@),
{
    if same_text(name, "player_head") {
        Some(ThemeSlot::PlayerHead)
    } else if names_player(name) {
        Some(ThemeSlot::PlayerBody)
    } else if same_text(name, "wall") {
        Some(ThemeSlot::Wall)
    } else if contains_text(name, "obstacle") {
        Some(ThemeSlot::Obstacle)
    } else {
        None
    }
}

/// The theme after the one at `current` among `count` themes, going round.
pub open spec fn next_index(current: int, count: int) -> int {
    (current + 1) % count
}

/// The theme after the one at `current` among `count` themes, going round.
/// There is none where there are no themes.
pub fn next_theme_index(current: usize, count: usize) -> (next: Option<usize>)
    ensures
        count == 0 ==> next is None,
        count > 0 ==> next == Some(next_index(current as int, count as int) as usize),
        count > 0 ==> next->0 < count,
{
    if count == 0 {
        return None;
    }
    let here: usize = current % count;
    proof {
        // (current + 1) % count == (1 + current % count) % count
        lemma_add_mod_noop_right(1, current as int, count as int);
        if here + 1 == count {
            lemma_mod_self_0(count as int);
        } else {
            lemma_small_mod((here + 1) as nat, count as nat);
        }
    }
    if here + 1 == count {
        Some(0)
    } else {
        Some(here + 1)
    }
}

/// Every body of the game falls into its slot: the head into the head's,
/// every other part of the player into the body's, a wall into the walls'
/// and an obstacle into the obstacles'.
pub proof fn lemma_slots_of_the_game(part: PartId, obstacle: ObstacleObject)
    ensures
        slot_of(part.spec_name()) == if part == PartId::Head {
            Some(ThemeSlot::PlayerHead)
        } else {
            Some(ThemeSlot::PlayerBody)
        },
        slot_of(Wall::spec_name()) == Some(ThemeSlot::Wall),
        slot_of(obstacle.spec_name()) == Some(ThemeSlot::Obstacle),
{
    lemma_names_unique(part, PartId::Head);
    lemma_part_names_are_player_names(part);
    lemma_world_names_are_not_player_names(obstacle);
    reveal_strlit("player_head");
    reveal_strlit("wall");
    reveal_strlit("obstacle");
    reveal_strlit("obstacle_rectangular");
    reveal_strlit("obstacle_round");
    reveal_strlit("obstacle_triangular");
    assert(Wall::spec_name().len() == 4 && PartId::Head.spec_name().len() == 11);
    let name = obstacle.spec_name();
    assert(name.subrange(0, 8) =~= obstacle_tag());
    assert(occurs_at(name, obstacle_tag(), 0));
}

} // verus!
