use falling::geometry::Vec2;
use falling::player_setup::{
    fits_at, names_player, setup_player, spawn_ragdoll, teardown_ragdoll, Joint, PartId, PartShape,
    PlayerBodyPart, Ragdoll, HEAD_FORCE_THRESHOLD, JOINT_COUNT, LIMB_FORCE_THRESHOLD, PART_COUNT,
    PLAYER_ANGULAR_DAMPING, PLAYER_LINEAR_DAMPING, TORSO_FORCE_THRESHOLD,
};

const ALL_PARTS: [PartId; 6] = [
    PartId::Torso,
    PartId::Head,
    PartId::ArmRight,
    PartId::ArmLeft,
    PartId::LegRight,
    PartId::LegLeft,
];

#[test]
fn part_index_and_from_index_are_inverse() {
    for (i, id) in ALL_PARTS.iter().enumerate() {
        assert_eq!(id.index(), i);
        assert_eq!(PartId::from_index(i), Some(*id));
    }
    assert_eq!(PartId::from_index(6), None);
    assert_eq!(PartId::from_index(usize::MAX), None);
}

#[test]
fn part_names_are_the_identity_strings() {
    assert_eq!(PartId::Torso.name(), "player_torso");
    assert_eq!(PartId::Head.name(), "player_head");
    assert_eq!(PartId::ArmRight.name(), "player_arm_r");
    assert_eq!(PartId::ArmLeft.name(), "player_arm_l");
    assert_eq!(PartId::LegRight.name(), "player_leg_r");
    assert_eq!(PartId::LegLeft.name(), "player_leg_l");
}

#[test]
fn part_names_are_unique_and_round_trip() {
    for a in ALL_PARTS {
        assert_eq!(PartId::from_name(a.name()), Some(a));
        for b in ALL_PARTS {
            assert_eq!(a.name() == b.name(), a == b);
        }
    }
}

#[test]
fn from_name_rejects_everything_else() {
    assert_eq!(PartId::from_name(""), None);
    assert_eq!(PartId::from_name("player"), None);
    assert_eq!(PartId::from_name("player_tail"), None);
    assert_eq!(PartId::from_name("player_head "), None);
    assert_eq!(PartId::from_name("Player_head"), None);
    assert_eq!(PartId::from_name("head"), None);
    assert_eq!(PartId::from_name("wall"), None);
    assert_eq!(PartId::from_name("obstacle_round"), None);
    assert_eq!(PartId::from_name("not_found"), None);
}

#[test]
fn names_player_looks_for_the_tag_anywhere() {
    for id in ALL_PARTS {
        assert!(names_player(id.name()));
    }
    assert!(names_player("player"));
    assert!(names_player("the_player_tail"));
    assert!(names_player("xplayer"));
    assert!(!names_player(""));
    assert!(!names_player("playe"));
    assert!(!names_player("Player"));
    assert!(!names_player("play_er"));
    assert!(!names_player("wall"));
    assert!(!names_player("obstacle_rectangular"));
    assert!(!names_player("obstacle_round"));
    assert!(!names_player("obstacle_triangular"));
    assert!(!names_player("not_found"));
}

fn expect_part(
    ragdoll: &Ragdoll,
    id: PartId,
    shape: PartShape,
    x: i64,
    y: i64,
    threshold: u64,
) {
    let part: PlayerBodyPart = ragdoll.part(id);
    assert_eq!(
        part,
        PlayerBodyPart {
            id,
            shape,
            position: Vec2 { x, y },
            velocity: Vec2 { x: 0, y: 0 },
            linear_damping: 1000,
            angular_damping: 500,
            density: 1000,
            force_threshold: Some(threshold),
        }
    );
}

#[test]
fn setup_player_builds_the_starting_pose() {
    let ragdoll = setup_player();
    let limb = PartShape::Cuboid { half_width: 5, half_height: 25 };
    expect_part(
        &ragdoll,
        PartId::Torso,
        PartShape::Cuboid { half_width: 10, half_height: 20 },
        0,
        200,
        500_000,
    );
    expect_part(&ragdoll, PartId::Head, PartShape::Ball { radius: 15 }, 0, 236, 90_000_000);
    expect_part(&ragdoll, PartId::ArmRight, limb, 18, 195, 60_000_000);
    expect_part(&ragdoll, PartId::ArmLeft, limb, -18, 195, 60_000_000);
    expect_part(&ragdoll, PartId::LegRight, limb, 6, 155, 60_000_000);
    expect_part(&ragdoll, PartId::LegLeft, limb, -6, 155, 60_000_000);
}

#[test]
fn setup_player_has_one_torso_and_one_head() {
    let ragdoll = setup_player();
    let parts = ragdoll.parts();
    assert_eq!(parts.len(), PART_COUNT);
    assert_eq!(parts.len(), 6);
    assert_eq!(parts.iter().filter(|p| p.id == PartId::Torso).count(), 1);
    assert_eq!(parts.iter().filter(|p| p.id == PartId::Head).count(), 1);
    for (i, part) in parts.iter().enumerate() {
        assert_eq!(part.id, ALL_PARTS[i]);
        assert_eq!(ragdoll.part(part.id), *part);
    }
    assert_eq!(ragdoll.torso(), ragdoll.part(PartId::Torso));
}

#[test]
fn setup_player_joints_form_a_star_around_the_torso() {
    let ragdoll = setup_player();
    let joints = ragdoll.joints();
    assert_eq!(joints.len(), JOINT_COUNT);
    assert_eq!(joints.len(), 5);
    for id in ALL_PARTS {
        let count = joints.iter().filter(|j| j.child == id).count();
        if id == PartId::Torso {
            assert_eq!(count, 0);
        } else {
            assert_eq!(count, 1);
        }
    }
}

#[test]
fn setup_player_joint_anchors_and_limits() {
    let ragdoll = setup_player();
    let expected = vec![
        Joint {
            child: PartId::Head,
            child_anchor: Vec2 { x: 0, y: -16 },
            torso_anchor: Vec2 { x: 0, y: 20 },
            limit_min: -500,
            limit_max: 500,
        },
        Joint {
            child: PartId::ArmRight,
            child_anchor: Vec2 { x: -5, y: 20 },
            torso_anchor: Vec2 { x: 13, y: 15 },
            limit_min: -5000,
            limit_max: 5000,
        },
        Joint {
            child: PartId::ArmLeft,
            child_anchor: Vec2 { x: 5, y: 20 },
            torso_anchor: Vec2 { x: -13, y: 15 },
            limit_min: -5000,
            limit_max: 5000,
        },
        Joint {
            child: PartId::LegRight,
            child_anchor: Vec2 { x: 0, y: 25 },
            torso_anchor: Vec2 { x: 6, y: -20 },
            limit_min: -2000,
            limit_max: 2000,
        },
        Joint {
            child: PartId::LegLeft,
            child_anchor: Vec2 { x: 0, y: 25 },
            torso_anchor: Vec2 { x: -6, y: -20 },
            limit_min: -2000,
            limit_max: 2000,
        },
    ];
    assert_eq!(*ragdoll.joints(), expected);
}

#[test]
fn head_takes_a_harder_blow_than_any_other_part() {
    let ragdoll = setup_player();
    let head = ragdoll.part(PartId::Head).force_threshold.unwrap();
    assert_eq!(head, HEAD_FORCE_THRESHOLD);
    for id in ALL_PARTS {
        let part = ragdoll.part(id);
        assert_eq!(part.linear_damping, PLAYER_LINEAR_DAMPING);
        assert_eq!(part.angular_damping, PLAYER_ANGULAR_DAMPING);
        if id != PartId::Head {
            assert!(part.force_threshold.unwrap() < head);
        }
    }
    assert_eq!(ragdoll.torso().force_threshold, Some(TORSO_FORCE_THRESHOLD));
    assert_eq!(ragdoll.part(PartId::LegLeft).force_threshold, Some(LIMB_FORCE_THRESHOLD));
}

#[test]
fn spawn_ragdoll_lays_the_parts_out_around_the_head() {
    let ragdoll = spawn_ragdoll(Vec2::new(100, 300));
    let limb = PartShape::Cuboid { half_width: 8, half_height: 25 };
    let expect = |id: PartId, shape: PartShape, x: i64, y: i64, density: u32| {
        assert_eq!(
            ragdoll.part(id),
            PlayerBodyPart {
                id,
                shape,
                position: Vec2 { x, y },
                velocity: Vec2 { x: 0, y: 0 },
                linear_damping: 0,
                angular_damping: 0,
                density,
                force_threshold: None,
            }
        );
    };
    expect(PartId::Head, PartShape::Ball { radius: 15 }, 100, 300, 1000);
    expect(
        PartId::Torso,
        PartShape::Cuboid { half_width: 12, half_height: 30 },
        100,
        255,
        2000,
    );
    expect(PartId::ArmLeft, limb, 80, 275, 1000);
    expect(PartId::ArmRight, limb, 120, 275, 1000);
    expect(PartId::LegLeft, limb, 94, 200, 1500);
    expect(PartId::LegRight, limb, 106, 200, 1500);
}

#[test]
fn spawn_ragdoll_joints() {
    let ragdoll = spawn_ragdoll(Vec2::new(-7, 9));
    let joints = ragdoll.joints();
    assert_eq!(joints.len(), 5);
    assert_eq!(
        joints[0],
        Joint {
            child: PartId::Head,
            child_anchor: Vec2 { x: 0, y: -15 },
            torso_anchor: Vec2 { x: 0, y: 30 },
            limit_min: -500,
            limit_max: 500,
        }
    );
    assert_eq!(
        joints[1],
        Joint {
            child: PartId::ArmRight,
            child_anchor: Vec2 { x: -8, y: 25 },
            torso_anchor: Vec2 { x: 12, y: 20 },
            limit_min: -2000,
            limit_max: 2000,
        }
    );
    assert_eq!(
        joints[2],
        Joint {
            child: PartId::ArmLeft,
            child_anchor: Vec2 { x: 8, y: 25 },
            torso_anchor: Vec2 { x: -12, y: 20 },
            limit_min: -2000,
            limit_max: 2000,
        }
    );
    assert_eq!(
        joints[3],
        Joint {
            child: PartId::LegRight,
            child_anchor: Vec2 { x: 0, y: 25 },
            torso_anchor: Vec2 { x: 6, y: -30 },
            limit_min: -1500,
            limit_max: 1500,
        }
    );
    assert_eq!(
        joints[4],
        Joint {
            child: PartId::LegLeft,
            child_anchor: Vec2 { x: 0, y: 25 },
            torso_anchor: Vec2 { x: -6, y: -30 },
            limit_min: -1500,
            limit_max: 1500,
        }
    );
}

#[test]
fn spawn_ragdoll_at_the_edge_of_the_representable_plane() {
    let ragdoll = spawn_ragdoll(Vec2::new(i64::MAX - 100, i64::MIN + 100));
    assert_eq!(ragdoll.part(PartId::ArmRight).position.x, i64::MAX - 80);
    assert_eq!(ragdoll.part(PartId::LegLeft).position.y, i64::MIN);
    let ragdoll = spawn_ragdoll(Vec2::new(i64::MIN + 100, i64::MAX));
    assert_eq!(ragdoll.part(PartId::ArmLeft).position.x, i64::MIN + 80);
    assert_eq!(ragdoll.part(PartId::Head).position.y, i64::MAX);
}

#[test]
fn teardown_ragdoll_is_idempotent() {
    let mut slot = Some(setup_player());
    teardown_ragdoll(&mut slot);
    assert!(slot.is_none());
    teardown_ragdoll(&mut slot);
    assert!(slot.is_none());
    let mut empty: Option<Ragdoll> = None;
    teardown_ragdoll(&mut empty);
    assert!(empty.is_none());
}

#[test]
fn set_position_and_set_velocity_touch_one_part_only() {
    let mut ragdoll = setup_player();
    let before: Vec<PlayerBodyPart> = ragdoll.parts().clone();
    ragdoll.set_position(PartId::ArmLeft, Vec2::new(-40, 7));
    ragdoll.set_velocity(PartId::LegRight, Vec2::new(3, -900));
    for id in ALL_PARTS {
        let old = before[id.index()];
        let new = ragdoll.part(id);
        match id {
            PartId::ArmLeft => {
                assert_eq!(new, PlayerBodyPart { position: Vec2 { x: -40, y: 7 }, ..old })
            }
            PartId::LegRight => {
                assert_eq!(new, PlayerBodyPart { velocity: Vec2 { x: 3, y: -900 }, ..old })
            }
            _ => assert_eq!(new, old),
        }
    }
    assert_eq!(ragdoll.joints().len(), 5);
}

#[test]
fn vec2_new_takes_the_coordinates() {
    assert_eq!(Vec2::new(3, -4), Vec2 { x: 3, y: -4 });
    assert_eq!(Vec2::new(i64::MIN, i64::MAX), Vec2 { x: i64::MIN, y: i64::MAX });
}

#[test]
fn a_ragdoll_fits_where_every_part_is_representable() {
    assert!(fits_at(Vec2::new(0, 0)));
    assert!(fits_at(Vec2::new(i64::MAX - 100, i64::MAX)));
    assert!(fits_at(Vec2::new(i64::MIN + 100, i64::MIN + 100)));
    assert!(!fits_at(Vec2::new(i64::MAX - 99, 0)));
    assert!(!fits_at(Vec2::new(i64::MIN + 99, 0)));
    assert!(!fits_at(Vec2::new(0, i64::MIN + 99)));
    assert!(!fits_at(Vec2::new(i64::MAX, i64::MIN)));
}
