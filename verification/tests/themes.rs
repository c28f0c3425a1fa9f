use falling::themes::{next_theme_index, theme_slot, ThemeSlot};

#[test]
fn next_theme_index_goes_round() {
    assert_eq!(next_theme_index(0, 3), Some(1));
    assert_eq!(next_theme_index(1, 3), Some(2));
    assert_eq!(next_theme_index(2, 3), Some(0));
    assert_eq!(next_theme_index(0, 1), Some(0));
    assert_eq!(next_theme_index(7, 3), Some(2));
    assert_eq!(next_theme_index(8, 3), Some(0));
}

#[test]
fn next_theme_index_without_themes() {
    assert_eq!(next_theme_index(0, 0), None);
    assert_eq!(next_theme_index(5, 0), None);
}

#[test]
fn next_theme_index_at_the_largest_index() {
    assert_eq!(next_theme_index(usize::MAX, 1), Some(0));
    assert_eq!(next_theme_index(usize::MAX, usize::MAX), Some(1));
    assert_eq!(next_theme_index(usize::MAX - 1, usize::MAX), Some(0));
    assert_eq!(next_theme_index(usize::MAX, 2), Some(0));
    assert_eq!(next_theme_index(usize::MAX, 4), Some(0));
    assert_eq!(next_theme_index(usize::MAX, 10), Some((usize::MAX % 10 + 1) % 10));
}

#[test]
fn theme_slot_of_every_body_of_the_game() {
    assert_eq!(theme_slot("player_head"), Some(ThemeSlot::PlayerHead));
    assert_eq!(theme_slot("player_torso"), Some(ThemeSlot::PlayerBody));
    assert_eq!(theme_slot("player_arm_r"), Some(ThemeSlot::PlayerBody));
    assert_eq!(theme_slot("player_arm_l"), Some(ThemeSlot::PlayerBody));
    assert_eq!(theme_slot("player_leg_r"), Some(ThemeSlot::PlayerBody));
    assert_eq!(theme_slot("player_leg_l"), Some(ThemeSlot::PlayerBody));
    assert_eq!(theme_slot("wall"), Some(ThemeSlot::Wall));
    assert_eq!(theme_slot("obstacle_rectangular"), Some(ThemeSlot::Obstacle));
    assert_eq!(theme_slot("obstacle_round"), Some(ThemeSlot::Obstacle));
    assert_eq!(theme_slot("obstacle_triangular"), Some(ThemeSlot::Obstacle));
}

#[test]
fn theme_slot_of_other_names() {
    assert_eq!(theme_slot(""), None);
    assert_eq!(theme_slot("not_found"), None);
    assert_eq!(theme_slot("walls"), None);
    assert_eq!(theme_slot("a wall"), None);
    assert_eq!(theme_slot("player_head_2"), Some(ThemeSlot::PlayerBody));
    assert_eq!(theme_slot("wall_of_player"), Some(ThemeSlot::PlayerBody));
    assert_eq!(theme_slot("player_obstacle"), Some(ThemeSlot::PlayerBody));
    assert_eq!(theme_slot("an_obstacle"), Some(ThemeSlot::Obstacle));
    assert_eq!(theme_slot("obstacl"), None);
}
