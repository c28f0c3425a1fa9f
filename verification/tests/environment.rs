use falling::environment::{
    build_obstacle, clamp_channel, despawn_out_of_window, draw_obstacle, has_left_window,
    has_room, is_spawn_allowed, is_spawn_due, is_too_close, manage_obstacles, setup_environment,
    shade_range, spawn_chance, spawn_decided, x_range,
    shape_from,
    spawn_random_obstacle, update_obstacles, Color, ObstacleDraws, ObstacleObject, ObstacleShape, ObstaclesData,
    Wall, MAX_SPAWN_DELTA_MS, MIN_OBSTACLE_DISTANCE, MIN_SPAWN_HEIGHT, OBSTACLE_SIZE_MAX,
    OBSTACLE_SIZE_MIN, OBSTACLE_X_MAX, OBSTACLE_X_MIN, OVER_PLAYER_DESPAWN, UNDER_PLAYER_SPAWN,
};
use falling::game_states::GameState;
use falling::geometry::Vec2;
use falling::player_setup::{setup_player, PartId, Ragdoll};

fn obstacle_at(y: i64) -> ObstacleObject {
    ObstacleObject {
        handle: y as u64,
        shape: ObstacleShape::Circle,
        position: Vec2 { x: 0, y },
        width: 150,
        height: 150,
        rotation: 0,
        color: Color { red: 300, green: 300, blue: 300 },
        gravity_scale: 100,
    }
}

fn heights(obstacles: &[ObstacleObject]) -> Vec<i64> {
    obstacles.iter().map(|o| o.position.y).collect()
}

fn ragdoll_with_torso_at(y: i64) -> Option<Ragdoll> {
    let mut ragdoll = setup_player();
    ragdoll.set_position(PartId::Torso, Vec2::new(0, y));
    Some(ragdoll)
}

fn check_admissible(obstacle: &ObstacleObject, y: i64, x_min: i64, x_max: i64, lo: i64, hi: i64) {
    assert_eq!(obstacle.position.y, y);
    assert!(lo <= obstacle.width && obstacle.width <= hi);
    assert!(lo <= obstacle.height && obstacle.height <= hi);
    assert!(2 * x_min <= 2 * obstacle.position.x - obstacle.width);
    assert!(2 * obstacle.position.x + obstacle.width < 2 * x_max);
    assert!(200 <= obstacle.color.red && obstacle.color.red < 400);
    assert_eq!(obstacle.color.green, obstacle.color.red);
    assert_eq!(obstacle.color.blue, obstacle.color.red);
    assert!(0 <= obstacle.rotation && obstacle.rotation < 360);
    if obstacle.shape == ObstacleShape::Circle {
        assert_eq!(obstacle.rotation, 0);
    }
    assert_eq!(obstacle.gravity_scale, 100);
    assert_eq!(obstacle.handle, 0);
}

#[test]
fn constants_of_the_environment() {
    assert_eq!(MAX_SPAWN_DELTA_MS, 500);
    assert_eq!(OVER_PLAYER_DESPAWN, 1000);
    assert_eq!(MIN_OBSTACLE_DISTANCE, 700);
    assert_eq!(UNDER_PLAYER_SPAWN, 1000);
    assert_eq!(MIN_SPAWN_HEIGHT, -4000);
    assert_eq!((OBSTACLE_X_MIN, OBSTACLE_X_MAX), (-295, 295));
    assert_eq!((OBSTACLE_SIZE_MIN, OBSTACLE_SIZE_MAX), (120, 180));
}

#[test]
fn setup_environment_builds_two_walls() {
    let walls = setup_environment();
    assert_eq!(
        walls,
        vec![
            Wall { position: Vec2 { x: -300, y: 0 }, half_width: 10, half_height: 7500, friction: 0 },
            Wall { position: Vec2 { x: 300, y: 0 }, half_width: 10, half_height: 7500, friction: 0 },
        ]
    );
    assert_eq!(walls[0].name(), "wall");
    assert_eq!(walls[1].name(), "wall");
}

#[test]
fn obstacle_names_tell_the_shape() {
    let mut obstacle = obstacle_at(0);
    obstacle.shape = ObstacleShape::Rectangle;
    assert_eq!(obstacle.name(), "obstacle_rectangular");
    obstacle.shape = ObstacleShape::Circle;
    assert_eq!(obstacle.name(), "obstacle_round");
    obstacle.shape = ObstacleShape::Triangle;
    assert_eq!(obstacle.name(), "obstacle_triangular");
}

#[test]
fn spawn_is_due_after_more_than_the_delay() {
    assert!(!is_spawn_due(1000, 1000));
    assert!(!is_spawn_due(1000, 1499));
    assert!(!is_spawn_due(1000, 1500));
    assert!(is_spawn_due(1000, 1501));
    assert!(is_spawn_due(0, u64::MAX));
    assert!(!is_spawn_due(u64::MAX, u64::MAX));
}

#[test]
fn spawn_is_not_due_when_the_clock_ran_backwards() {
    assert!(!is_spawn_due(1000, 999));
    assert!(!is_spawn_due(u64::MAX, 0));
    assert!(!is_spawn_due(501, 0));
}

#[test]
fn too_close_is_less_than_the_least_distance() {
    assert!(is_too_close(0, 0));
    assert!(is_too_close(0, 699));
    assert!(is_too_close(699, 0));
    assert!(is_too_close(-350, 349));
    assert!(!is_too_close(0, 700));
    assert!(!is_too_close(700, 0));
    assert!(!is_too_close(-350, 350));
    assert!(!is_too_close(-1000, 1000));
}

#[test]
fn too_close_at_the_ends_of_the_number_line() {
    assert!(!is_too_close(i64::MIN, i64::MAX));
    assert!(!is_too_close(i64::MAX, i64::MIN));
    assert!(is_too_close(i64::MAX, i64::MAX - 699));
    assert!(!is_too_close(i64::MIN + 700, i64::MIN));
}

#[test]
fn spawn_is_allowed_above_the_floor() {
    let none: Vec<ObstacleObject> = Vec::new();
    assert!(is_spawn_allowed(&none, 200));
    assert!(is_spawn_allowed(&none, -4000));
    assert!(!is_spawn_allowed(&none, -4001));
    assert!(!is_spawn_allowed(&none, i64::MIN));
    assert!(is_spawn_allowed(&none, i64::MAX));
}

#[test]
fn spawn_is_allowed_only_away_from_every_obstacle() {
    let torso_y = 200;
    let new_y = -800;
    assert!(!is_spawn_allowed(&vec![obstacle_at(new_y)], torso_y));
    assert!(!is_spawn_allowed(&vec![obstacle_at(new_y + 699)], torso_y));
    assert!(!is_spawn_allowed(&vec![obstacle_at(new_y - 699)], torso_y));
    assert!(is_spawn_allowed(&vec![obstacle_at(new_y + 700)], torso_y));
    assert!(is_spawn_allowed(&vec![obstacle_at(new_y - 700)], torso_y));
    let far = vec![obstacle_at(900), obstacle_at(-100), obstacle_at(-1500)];
    assert!(is_spawn_allowed(&far, torso_y));
    let one_near = vec![obstacle_at(900), obstacle_at(-100), obstacle_at(-1499)];
    assert!(!is_spawn_allowed(&one_near, torso_y));
    let mut sideways = obstacle_at(new_y + 10);
    sideways.position.x = 1_000_000;
    assert!(!is_spawn_allowed(&vec![sideways], torso_y));
}

#[test]
fn the_window_ends_above_and_below_the_torso() {
    assert!(has_left_window(1202, 200));
    assert!(has_left_window(1201, 200));
    assert!(!has_left_window(1199, 200));
    assert!(!has_left_window(200, 200));
    assert!(!has_left_window(-800, 200));
    assert!(!has_left_window(-899, 200));
    assert!(has_left_window(-901, 200));
    assert!(has_left_window(-902, 200));
}

#[test]
fn an_obstacle_at_the_edge_of_the_window_stays() {
    assert!(!has_left_window(1200, 200));
    assert!(!has_left_window(-900, 200));
    assert!(!has_left_window(1000, 0));
    assert!(!has_left_window(-1100, 0));
    let mut obstacles = vec![obstacle_at(1200), obstacle_at(-900)];
    assert!(despawn_out_of_window(&mut obstacles, 200).is_empty());
    assert_eq!(heights(&obstacles), vec![1200, -900]);
}

#[test]
fn the_window_at_the_ends_of_the_number_line() {
    assert!(has_left_window(i64::MIN, i64::MAX));
    assert!(!has_left_window(i64::MAX, i64::MAX));
    assert!(has_left_window(i64::MAX, i64::MIN));
    assert!(!has_left_window(i64::MIN, i64::MIN));
    assert!(has_left_window(i64::MIN + 1001, i64::MIN));
    assert!(!has_left_window(i64::MIN + 1000, i64::MIN));
    assert!(has_left_window(i64::MAX - 1101, i64::MAX));
    assert!(!has_left_window(i64::MAX - 1100, i64::MAX));
}

#[test]
fn despawn_removes_exactly_what_left_the_window() {
    let mut obstacles = vec![
        obstacle_at(1201),
        obstacle_at(1200),
        obstacle_at(-901),
        obstacle_at(-900),
        obstacle_at(200),
        obstacle_at(5000),
        obstacle_at(-3000),
        obstacle_at(0),
    ];
    let all = obstacles.clone();
    let despawned = despawn_out_of_window(&mut obstacles, 200);
    assert_eq!(heights(&obstacles), vec![1200, -900, 200, 0]);
    assert_eq!(heights(&despawned), vec![1201, -901, 5000, -3000]);
    for obstacle in &all {
        let left = has_left_window(obstacle.position.y, 200);
        assert_eq!(despawned.contains(obstacle), left);
        assert_eq!(obstacles.contains(obstacle), !left);
    }
}

#[test]
fn despawn_with_nothing_to_do() {
    let mut none: Vec<ObstacleObject> = Vec::new();
    assert!(despawn_out_of_window(&mut none, 0).is_empty());
    assert!(none.is_empty());
    let mut inside = vec![obstacle_at(10), obstacle_at(-10)];
    assert!(despawn_out_of_window(&mut inside, 0).is_empty());
    assert_eq!(heights(&inside), vec![10, -10]);
    let mut outside = vec![obstacle_at(10), obstacle_at(-10)];
    assert_eq!(heights(&despawn_out_of_window(&mut outside, 50_000)), vec![10, -10]);
    assert!(outside.is_empty());
}

#[test]
fn clamp_channel_keeps_a_channel_in_range() {
    assert_eq!(clamp_channel(-1), 0);
    assert_eq!(clamp_channel(i64::MIN), 0);
    assert_eq!(clamp_channel(0), 0);
    assert_eq!(clamp_channel(300), 300);
    assert_eq!(clamp_channel(1000), 1000);
    assert_eq!(clamp_channel(1001), 1000);
    assert_eq!(clamp_channel(i64::MAX), 1000);
}

#[test]
fn build_obstacle_follows_the_draws() {
    let draws = ObstacleDraws {
        width: 121,
        height: 180,
        x: -40,
        red: 250,
        green: 399,
        blue: 200,
        rotation: 77,
        shape: ObstacleShape::Rectangle,
    };
    assert_eq!(
        build_obstacle(&draws, -800),
        ObstacleObject {
            handle: 0,
            shape: ObstacleShape::Rectangle,
            position: Vec2 { x: -40, y: -800 },
            width: 121,
            height: 180,
            rotation: 77,
            color: Color { red: 250, green: 250, blue: 250 },
            gravity_scale: 100,
        }
    );
    let triangle = build_obstacle(&ObstacleDraws { shape: ObstacleShape::Triangle, ..draws }, 5);
    assert_eq!(triangle.shape, ObstacleShape::Triangle);
    assert_eq!(triangle.rotation, 77);
    assert_eq!(triangle.position, Vec2::new(-40, 5));
}

#[test]
fn build_obstacle_never_rotates_a_circle() {
    let draws = ObstacleDraws {
        width: 150,
        height: 130,
        x: 9,
        red: 333,
        green: 333,
        blue: 333,
        rotation: 359,
        shape: ObstacleShape::Circle,
    };
    let circle = build_obstacle(&draws, 0);
    assert_eq!(circle.shape, ObstacleShape::Circle);
    assert_eq!(circle.rotation, 0);
    assert_eq!(circle.width, 150);
    assert_eq!(circle.height, 130);
}

#[test]
fn build_obstacle_clamps_the_shade() {
    let draws = ObstacleDraws {
        width: 150,
        height: 150,
        x: 0,
        red: -20,
        green: 500,
        blue: 500,
        rotation: 0,
        shape: ObstacleShape::Rectangle,
    };
    assert_eq!(build_obstacle(&draws, 0).color, Color { red: 0, green: 0, blue: 0 });
    let bright = ObstacleDraws { red: 1200, ..draws };
    assert_eq!(build_obstacle(&bright, 0).color, Color { red: 1000, green: 1000, blue: 1000 });
}

#[test]
fn draws_and_obstacles_stay_in_their_ranges() {
    for seed in 0..20u64 {
        let mut data = ObstaclesData::new(seed, 0);
        for _ in 0..200 {
            let draws = draw_obstacle(-295, 295, 120, 180, &mut data.rng);
            assert!(120 <= draws.width && draws.width <= 180);
            assert!(120 <= draws.height && draws.height <= 180);
            assert_eq!((-295 + (draws.width + 1) / 2, 295 - draws.width / 2 - 1),
                x_range(-295, 295, draws.width as u32));
            assert!(2 * -295 <= 2 * draws.x - draws.width);
            assert!(2 * draws.x + draws.width < 2 * 295);
            for channel in [draws.red, draws.green, draws.blue] {
                assert!(200 <= channel && channel < 400);
            }
            assert!(0 <= draws.rotation && draws.rotation < 360);
            let obstacle = spawn_random_obstacle(-295, 295, 120, 180, &mut data.rng, -1234);
            check_admissible(&obstacle, -1234, -295, 295, 120, 180);
        }
    }
}

#[test]
fn spawn_random_obstacle_in_the_narrowest_band() {
    let mut data = ObstaclesData::new(3, 0);
    for _ in 0..50 {
        let obstacle = spawn_random_obstacle(-5, 5, 9, 9, &mut data.rng, 0);
        assert_eq!(obstacle.width, 9);
        assert_eq!(obstacle.height, 9);
        assert_eq!(obstacle.position.x, 0);
        let obstacle = spawn_random_obstacle(0, 181, 180, 180, &mut data.rng, 0);
        assert_eq!(obstacle.width, 180);
        assert_eq!(obstacle.position.x, 90);
    }
    let obstacle = spawn_random_obstacle(i32::MIN, i32::MAX, 1, i32::MAX, &mut data.rng, i64::MIN);
    check_admissible(&obstacle, i64::MIN, i32::MIN as i64, i32::MAX as i64, 1, i32::MAX as i64);
}

#[test]
fn random_obstacles_vary() {
    let mut data = ObstaclesData::new(42, 0);
    let obstacles: Vec<ObstacleObject> = (0..300)
        .map(|_| spawn_random_obstacle(-295, 295, 120, 180, &mut data.rng, 0))
        .collect();
    let distinct = |values: Vec<i64>| {
        let mut values = values;
        values.sort();
        values.dedup();
        values.len()
    };
    assert!(distinct(obstacles.iter().map(|o| o.width).collect()) > 20);
    assert!(distinct(obstacles.iter().map(|o| o.height).collect()) > 20);
    assert!(distinct(obstacles.iter().map(|o| o.position.x).collect()) > 50);
    assert!(distinct(obstacles.iter().map(|o| o.color.red).collect()) > 50);
    assert!(distinct(obstacles.iter().map(|o| o.rotation).collect()) > 50);
    for shape in [ObstacleShape::Rectangle, ObstacleShape::Circle, ObstacleShape::Triangle] {
        let count = obstacles.iter().filter(|o| o.shape == shape).count();
        assert!(count > 50, "{:?} came {} times", shape, count);
    }
    assert!(obstacles.iter().any(|o| o.width != 120));
    assert!(obstacles.iter().any(|o| o.width != 180));
}

#[test]
fn the_same_seed_gives_the_same_obstacles() {
    let run = |seed: u64| -> Vec<ObstacleObject> {
        let mut data = ObstaclesData::new(seed, 0);
        (0..40).map(|_| spawn_random_obstacle(-295, 295, 120, 180, &mut data.rng, 7)).collect()
    };
    assert_eq!(run(1), run(1));
    assert_eq!(run(987_654_321), run(987_654_321));
    assert_ne!(run(1), run(2));
}

#[test]
fn obstacles_data_remembers_the_start_time() {
    assert_eq!(ObstaclesData::new(0, 0).last_spawned, 0);
    assert_eq!(ObstaclesData::new(5, 123_456).last_spawned, 123_456);
}

#[test]
fn manage_obstacles_acts_only_during_a_round() {
    for idle_state in [GameState::PreGame, GameState::GameOver] {
        let mut data = ObstaclesData::new(1, 0);
        let mut obstacles = vec![obstacle_at(90_000), obstacle_at(0)];
        let ragdoll = ragdoll_with_torso_at(200);
        for tick in 0..300u64 {
            let changes =
                manage_obstacles(&mut data, &mut obstacles, &ragdoll, &idle_state, 1000 * tick);
            assert!(!changes.spawned);
            assert!(changes.despawned.is_empty());
        }
        assert_eq!(heights(&obstacles), vec![90_000, 0]);
        assert_eq!(data.last_spawned, 0);
    }
}

#[test]
fn manage_obstacles_without_a_torso_skips_silently() {
    let mut data = ObstaclesData::new(1, 0);
    let mut obstacles = vec![obstacle_at(90_000), obstacle_at(0)];
    for tick in 0..300u64 {
        let changes =
            manage_obstacles(&mut data, &mut obstacles, &None, &GameState::InGame, 1000 * tick);
        assert!(!changes.spawned);
        assert!(changes.despawned.is_empty());
    }
    assert_eq!(heights(&obstacles), vec![90_000, 0]);
    assert_eq!(data.last_spawned, 0);
}

#[test]
fn manage_obstacles_despawns_even_when_no_spawn_is_due() {
    let mut data = ObstaclesData::new(1, 10_000);
    let mut obstacles = vec![obstacle_at(1201), obstacle_at(300), obstacle_at(-901)];
    let ragdoll = ragdoll_with_torso_at(200);
    let changes = manage_obstacles(&mut data, &mut obstacles, &ragdoll, &GameState::InGame, 10_500);
    assert!(!changes.spawned);
    assert_eq!(heights(&changes.despawned), vec![1201, -901]);
    assert_eq!(heights(&obstacles), vec![300]);
    assert_eq!(data.last_spawned, 10_000);
}

#[test]
fn manage_obstacles_never_spawns_before_the_delay_has_passed() {
    for seed in 0..10u64 {
        let mut data = ObstaclesData::new(seed, 10_000);
        let mut obstacles: Vec<ObstacleObject> = Vec::new();
        let ragdoll = ragdoll_with_torso_at(200);
        for now in (9_000..=10_500u64).step_by(5) {
            let changes =
                manage_obstacles(&mut data, &mut obstacles, &ragdoll, &GameState::InGame, now);
            assert!(!changes.spawned);
        }
        assert!(obstacles.is_empty());
        assert_eq!(data.last_spawned, 10_000);
    }
}

#[test]
fn manage_obstacles_never_spawns_below_the_floor() {
    let mut data = ObstaclesData::new(9, 0);
    let mut obstacles: Vec<ObstacleObject> = Vec::new();
    let ragdoll = ragdoll_with_torso_at(-4001);
    for tick in 1..2000u64 {
        let changes =
            manage_obstacles(&mut data, &mut obstacles, &ragdoll, &GameState::InGame, 1000 * tick);
        assert!(!changes.spawned);
    }
    assert!(obstacles.is_empty());
    assert_eq!(data.last_spawned, 0);
}

#[test]
fn manage_obstacles_never_spawns_too_close_to_an_obstacle() {
    let mut data = ObstaclesData::new(9, 0);
    let mut obstacles = vec![obstacle_at(-800 + 699)];
    let ragdoll = ragdoll_with_torso_at(200);
    for tick in 1..2000u64 {
        let changes =
            manage_obstacles(&mut data, &mut obstacles, &ragdoll, &GameState::InGame, 1000 * tick);
        assert!(!changes.spawned);
        assert!(changes.despawned.is_empty());
    }
    assert_eq!(heights(&obstacles), vec![-101]);
}

#[test]
fn manage_obstacles_spawns_below_the_torso_sooner_or_later() {
    for seed in 0..10u64 {
        let mut data = ObstaclesData::new(seed, 0);
        let mut obstacles = vec![obstacle_at(-800 + 700), obstacle_at(1201), obstacle_at(-1500)];
        let ragdoll = ragdoll_with_torso_at(200);
        let mut spawned_at = None;
        for tick in 1..2000u64 {
            let now = 501 * tick;
            let changes =
                manage_obstacles(&mut data, &mut obstacles, &ragdoll, &GameState::InGame, now);
            if tick == 1 {
                assert_eq!(heights(&changes.despawned), vec![1201, -1500]);
            } else {
                assert!(changes.despawned.is_empty());
            }
            if changes.spawned {
                spawned_at = Some(now);
                break;
            }
            assert_eq!(heights(&obstacles), vec![-100]);
            assert_eq!(data.last_spawned, 0);
        }
        let now = spawned_at.expect("an obstacle is spawned within 2000 trials");
        assert_eq!(data.last_spawned, now);
        assert_eq!(heights(&obstacles), vec![-100, -800]);
        check_admissible(&obstacles[1], -800, -295, 295, 120, 180);
        let ragdoll = ragdoll_with_torso_at(200);
        for later in 1..2000u64 {
            let changes = manage_obstacles(
                &mut data,
                &mut obstacles,
                &ragdoll,
                &GameState::InGame,
                now + 501 * later,
            );
            assert!(!changes.spawned);
        }
        assert_eq!(heights(&obstacles), vec![-100, -800]);
    }
}

#[test]
fn a_long_fall_keeps_all_obstacles_apart() {
    let mut data = ObstaclesData::new(2024, 0);
    let mut obstacles: Vec<ObstacleObject> = Vec::new();
    let mut spawned = 0;
    let mut torso_y: i64 = 5000;
    for tick in 1..40_000u64 {
        torso_y -= 5;
        if torso_y < -5000 {
            torso_y = 5000;
        }
        let ragdoll = ragdoll_with_torso_at(torso_y);
        let before = obstacles.clone();
        let changes =
            manage_obstacles(&mut data, &mut obstacles, &ragdoll, &GameState::InGame, 17 * tick);
        for gone in &changes.despawned {
            assert!(has_left_window(gone.position.y, torso_y));
        }
        let kept = if changes.spawned { &obstacles[..obstacles.len() - 1] } else { &obstacles[..] };
        let stayed: Vec<ObstacleObject> = before
            .iter()
            .copied()
            .filter(|o| !has_left_window(o.position.y, torso_y))
            .collect();
        assert_eq!(kept, &stayed[..]);
        if changes.spawned {
            spawned += 1;
            let fresh = obstacles[obstacles.len() - 1];
            check_admissible(&fresh, torso_y - 1000, -295, 295, 120, 180);
            assert!(torso_y >= -4000);
            for old in &before {
                assert!((old.position.y - fresh.position.y).abs() >= 700);
            }
        }
        for (i, a) in obstacles.iter().enumerate() {
            for b in &obstacles[i + 1..] {
                assert!(!is_too_close(a.position.y, b.position.y));
            }
        }
    }
    assert!(spawned > 20, "only {} obstacles were spawned", spawned);
}

#[test]
fn update_obstacles_despawns_and_adds_the_new_obstacle() {
    let mut obstacles = vec![obstacle_at(1201), obstacle_at(300), obstacle_at(-901)];
    let mut last_spawned = 40;
    let fresh = obstacle_at(-800);
    let despawned = update_obstacles(&mut obstacles, &mut last_spawned, 200, 1234, Some(fresh));
    assert_eq!(heights(&despawned), vec![1201, -901]);
    assert_eq!(obstacles, vec![obstacle_at(300), fresh]);
    assert_eq!(last_spawned, 1234);
}

#[test]
fn update_obstacles_without_a_new_obstacle_keeps_the_clock() {
    let mut obstacles = vec![obstacle_at(1201), obstacle_at(300), obstacle_at(-901)];
    let mut last_spawned = 40;
    let despawned = update_obstacles(&mut obstacles, &mut last_spawned, 200, 1234, None);
    assert_eq!(heights(&despawned), vec![1201, -901]);
    assert_eq!(obstacles, vec![obstacle_at(300)]);
    assert_eq!(last_spawned, 40);
}

#[test]
fn update_obstacles_keeps_a_new_obstacle_whatever_its_height() {
    let mut obstacles: Vec<ObstacleObject> = Vec::new();
    let mut last_spawned = 0;
    let fresh = obstacle_at(90_000);
    let despawned = update_obstacles(&mut obstacles, &mut last_spawned, 200, 5, Some(fresh));
    assert!(despawned.is_empty());
    assert_eq!(obstacles, vec![fresh]);
    assert_eq!(last_spawned, 5);
}

#[test]
fn shape_from_a_drawn_number() {
    assert_eq!(shape_from(0), ObstacleShape::Rectangle);
    assert_eq!(shape_from(1), ObstacleShape::Circle);
    assert_eq!(shape_from(2), ObstacleShape::Triangle);
}

#[test]
fn a_band_has_room_for_the_widest_obstacle() {
    assert!(has_room(-295, 295, 120, 180));
    assert!(has_room(-90, 91, 120, 180));
    assert!(!has_room(-90, 90, 120, 180));
    assert!(!has_room(0, 180, 120, 180));
    assert!(has_room(0, 181, 120, 180));
    assert!(has_room(-5, 5, 9, 9));
    assert!(!has_room(-4, 5, 9, 9));
    assert!(has_room(-4, 5, 8, 8));
    assert!(has_room(0, 2, 1, 1));
    assert!(!has_room(0, 1, 1, 1));
    assert!(!has_room(-295, 295, 0, 180));
    assert!(!has_room(-295, 295, -5, 180));
    assert!(!has_room(-295, 295, 181, 180));
    assert!(has_room(i32::MIN, i32::MAX, 1, i32::MAX));
    assert!(!has_room(i32::MAX, i32::MIN, 1, 1));
}

#[test]
fn the_chance_of_a_trial_is_one_in_twenty() {
    assert_eq!(spawn_chance(), (1, 20));
}

#[test]
fn a_spawn_is_decided_by_clock_trial_and_room() {
    let none: Vec<ObstacleObject> = Vec::new();
    assert!(spawn_decided(1000, 1501, true, &none, 200));
    assert!(!spawn_decided(1000, 1501, false, &none, 200));
    assert!(!spawn_decided(1000, 1500, true, &none, 200));
    assert!(!spawn_decided(1000, 999, true, &none, 200));
    assert!(spawn_decided(1000, 1501, true, &none, -4000));
    assert!(!spawn_decided(1000, 1501, true, &none, -4001));
    let near = vec![obstacle_at(5000), obstacle_at(-800 + 699)];
    assert!(!spawn_decided(1000, 1501, true, &near, 200));
    let far = vec![obstacle_at(5000), obstacle_at(-800 + 700), obstacle_at(-800 - 700)];
    assert!(spawn_decided(1000, 1501, true, &far, 200));
    assert!(!spawn_decided(1000, 1501, false, &far, 200));
    assert!(!spawn_decided(1000, 1500, false, &near, -4001));
}

#[test]
fn the_range_of_centres_keeps_the_obstacle_in_the_band() {
    assert_eq!(x_range(-295, 295, 120), (-235, 234));
    assert_eq!(x_range(-295, 295, 121), (-234, 234));
    assert_eq!(x_range(-295, 295, 180), (-205, 204));
    assert_eq!(x_range(-295, 295, 179), (-205, 205));
    assert_eq!(x_range(0, 181, 180), (90, 90));
    assert_eq!(x_range(-5, 5, 9), (0, 0));
    assert_eq!(x_range(0, 2, 1), (1, 1));
    assert_eq!(
        x_range(i32::MIN, i32::MAX, u32::MAX),
        (i32::MIN as i64 + (1 << 31), i32::MAX as i64 - ((1 << 31) - 1) - 1)
    );
}

#[test]
fn the_range_of_shades_lies_around_the_base_colour() {
    assert_eq!(shade_range(), (200, 399));
}

#[test]
fn manage_obstacles_reports_the_trial_and_spawns_by_it() {
    for seed in 0..5u64 {
        let mut data = ObstaclesData::new(seed, 0);
        let mut obstacles: Vec<ObstacleObject> = Vec::new();
        let ragdoll = ragdoll_with_torso_at(200);
        let mut trials = 0;
        for tick in 1..4000u64 {
            let now = 100 * tick;
            let due = is_spawn_due(data.last_spawned, now);
            let allowed = is_spawn_allowed(&obstacles, 200);
            let count = obstacles.len();
            let changes =
                manage_obstacles(&mut data, &mut obstacles, &ragdoll, &GameState::InGame, now);
            assert!(!changes.trial || due);
            assert_eq!(changes.spawned, due && changes.trial && allowed);
            assert_eq!(obstacles.len(), count + usize::from(changes.spawned));
            if changes.trial {
                trials += 1;
            }
            if changes.spawned {
                obstacles.clear();
            }
        }
        assert!(trials > 50, "only {} trials succeeded", trials);
        assert!(trials < 600, "{} trials succeeded", trials);
    }
}

#[test]
fn manage_obstacles_leaves_the_generator_alone_when_it_does_nothing() {
    let fresh = || ObstaclesData::new(77, 10_000);
    let mut obstacles: Vec<ObstacleObject> = Vec::new();

    let mut idle = fresh();
    manage_obstacles(&mut idle, &mut obstacles, &None, &GameState::InGame, 99_000);
    assert_eq!(idle.rng, fresh().rng);

    let ragdoll = ragdoll_with_torso_at(200);
    for state in [GameState::PreGame, GameState::GameOver] {
        let mut idle = fresh();
        manage_obstacles(&mut idle, &mut obstacles, &ragdoll, &state, 99_000);
        assert_eq!(idle.rng, fresh().rng);
    }

    let mut early = fresh();
    manage_obstacles(&mut early, &mut obstacles, &ragdoll, &GameState::InGame, 10_500);
    assert_eq!(early.rng, fresh().rng);

    let mut due = fresh();
    manage_obstacles(&mut due, &mut obstacles, &ragdoll, &GameState::InGame, 10_501);
    assert_ne!(due.rng, fresh().rng);
}
