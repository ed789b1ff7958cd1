use anguilla_core::animation::AnimationCycle;
use anguilla_core::animation::AnimationDescriptor;
use anguilla_core::animation::ImageId;
use anguilla_core::collision::attack_scale_exec;
use anguilla_core::cooldown::AttackCooldown;
use anguilla_core::geometry::Aabb;
use anguilla_core::geometry::Side;
use anguilla_core::geometry::Vec2Fix;
use anguilla_core::geometry::contact;
use anguilla_core::input::InputState;
use anguilla_core::input::movement_intent;
use anguilla_core::locomotion::LocomotionState;
use anguilla_core::locomotion::descriptor_for;
use anguilla_core::motion::advance_position;
use anguilla_core::motion::integrate_velocity;
use anguilla_core::terrain::TerrainType;

fn floor_like_collider(cx: i64, cy: i64) -> Aabb {
    Aabb::new(cx, cy, 455_000_000, 5_000_000)
}

#[test]
fn clamp_invariant_holds_after_integration() {
    // Horizontal component always lands in [-1000, 1000] world units/s.
    let fast_right = integrate_velocity(Vec2Fix { x: 1_000_000, y: 0 }, 12_800);
    assert_eq!(fast_right.x, 1_000_000);
    let fast_left = integrate_velocity(Vec2Fix { x: -1_000_000, y: 0 }, -12_800);
    assert_eq!(fast_left.x, -1_000_000);
    let cruising = integrate_velocity(Vec2Fix { x: 987_200, y: 0 }, 12_800);
    assert_eq!(cruising.x, 1_000_000);
    let ordinary = integrate_velocity(Vec2Fix { x: 0, y: 0 }, 12_800);
    assert_eq!(ordinary.x, 12_800);
    let falling = integrate_velocity(Vec2Fix { x: 0, y: -10_000_001 }, 0);
    assert_eq!(falling.y, -10_000_000);
}

#[test]
fn centered_character_over_thin_floor_contacts_top() {
    // Character box at (0,0) with half-extent (32,32); collider box at
    // (0,-16) with half-extent (455,5): intersection, classified Top.
    let collider = floor_like_collider(0, -16_000_000);
    assert_eq!(contact(0, 0, &collider), Some(Side::Top));
}

#[test]
fn approach_from_the_left_contacts_left() {
    // The collider sits to the right; the offset is purely horizontal
    // and negative.
    let collider = Aabb::new(40_000_000, 0, 10_000_000, 10_000_000);
    assert_eq!(contact(0, 0, &collider), Some(Side::Left));
}

#[test]
fn approach_from_the_right_contacts_right() {
    let collider = Aabb::new(-40_000_000, 0, 10_000_000, 10_000_000);
    assert_eq!(contact(0, 0, &collider), Some(Side::Right));
}

#[test]
fn approach_from_above_contacts_top() {
    let collider = Aabb::new(0, -40_000_000, 10_000_000, 10_000_000);
    assert_eq!(contact(0, 0, &collider), Some(Side::Top));
}

#[test]
fn approach_from_below_contacts_bottom() {
    let collider = Aabb::new(0, 40_000_000, 10_000_000, 10_000_000);
    assert_eq!(contact(0, 0, &collider), Some(Side::Bottom));
}

#[test]
fn equal_offsets_classify_as_vertical() {
    // Offset (-20, -20) from a corner overlap: the tie between the
    // axes goes to the vertical sides.
    let collider = Aabb::new(30_000_000, 30_000_000, 10_000_000, 10_000_000);
    assert_eq!(contact(0, 0, &collider), Some(Side::Bottom));
}

#[test]
fn separated_boxes_make_no_contact() {
    let collider = Aabb::new(100_000_000, 0, 10_000_000, 10_000_000);
    assert_eq!(contact(0, 0, &collider), None);
}

#[test]
fn animation_wraps_after_four_fast_periods() {
    // Cycle first=0, last=3, period 0.1s: after 0.4s the frame index
    // has visited 1, 2, 3 and returned to 0.
    let descriptor = AnimationDescriptor {
        image: ImageId::CharacterJump,
        first: 0,
        last: 3,
        period_ms: 100,
    };
    let mut cycle = AnimationCycle::from_descriptor(&descriptor);
    let mut visited = Vec::new();
    for _ in 0..4 {
        cycle.advance(100);
        visited.push(cycle.index);
    }
    assert_eq!(visited, vec![1, 2, 3, 0]);
}

#[test]
fn animation_keeps_remainder_between_periods() {
    let descriptor = AnimationDescriptor {
        image: ImageId::CharacterRun,
        first: 0,
        last: 7,
        period_ms: 100,
    };
    let mut cycle = AnimationCycle::from_descriptor(&descriptor);
    cycle.advance(60);
    assert_eq!(cycle.index, 0);
    assert_eq!(cycle.elapsed_ms, 60);
    cycle.advance(60);
    assert_eq!(cycle.index, 1);
    assert_eq!(cycle.elapsed_ms, 20);
}

#[test]
fn cooldown_counts_down_to_zero_and_unlocks() {
    let mut cooldown = AttackCooldown::new();
    assert!(!cooldown.locked());
    cooldown.arm();
    assert_eq!(cooldown.remaining_ms, 1_200);
    assert!(cooldown.locked());
    cooldown.tick(500);
    assert_eq!(cooldown.remaining_ms, 700);
    assert!(cooldown.locked());
    cooldown.tick(700);
    assert_eq!(cooldown.remaining_ms, 0);
    assert!(!cooldown.locked());
    cooldown.tick(16);
    assert_eq!(cooldown.remaining_ms, 0);
}

#[test]
fn rearming_overrides_a_running_cooldown() {
    let mut cooldown = AttackCooldown::new();
    cooldown.arm();
    cooldown.tick(1_000);
    assert_eq!(cooldown.remaining_ms, 200);
    cooldown.arm();
    assert_eq!(cooldown.remaining_ms, 1_200);
}

#[test]
fn held_movement_keys_produce_the_scaled_intent() {
    let mut input = InputState::idle();
    input.right_held = true;
    assert_eq!(movement_intent(&input, LocomotionState::Neutral, 16), 12_800);
    input.left_held = true;
    assert_eq!(movement_intent(&input, LocomotionState::Neutral, 16), 0);
    input.right_held = false;
    assert_eq!(movement_intent(&input, LocomotionState::Neutral, 16), -12_800);
    assert_eq!(movement_intent(&input, LocomotionState::Attack, 16), 0);
}

#[test]
fn positions_advance_by_velocity_times_dt() {
    let moved = advance_position(
        Vec2Fix { x: 1_000_000, y: -2_000_000 },
        Vec2Fix { x: 12_800, y: -500_000 },
        16,
    );
    assert_eq!(moved.x, 1_000_000 + 12_800 * 16);
    assert_eq!(moved.y, -2_000_000 - 500_000 * 16);
}

#[test]
fn attack_scaling_nearly_zeroes_velocity() {
    // 12.8 u/s scaled by 0.5 * 0.016 truncates to 0.102 u/s.
    assert_eq!(attack_scale_exec(12_800, 16), 102);
    assert_eq!(attack_scale_exec(-12_800, 16), -102);
    assert_eq!(attack_scale_exec(0, 16), 0);
}

#[test]
fn state_descriptors_match_their_cycles() {
    let neutral = descriptor_for(LocomotionState::Neutral);
    assert_eq!(neutral.image, ImageId::CharacterNeutral);
    assert_eq!((neutral.first, neutral.last, neutral.period_ms), (0, 1, 400));
    let run = descriptor_for(LocomotionState::Run);
    assert_eq!(run.image, ImageId::CharacterRun);
    assert_eq!((run.first, run.last, run.period_ms), (0, 7, 100));
    let jump = descriptor_for(LocomotionState::Jump);
    assert_eq!(jump.image, ImageId::CharacterJump);
    assert_eq!((jump.first, jump.last, jump.period_ms), (0, 3, 100));
    let attack = descriptor_for(LocomotionState::Attack);
    assert_eq!(attack.image, ImageId::CharacterAttack);
    assert_eq!((attack.first, attack.last, attack.period_ms), (0, 11, 100));
}

#[test]
fn floor_terrain_matches_its_layout() {
    let floor = TerrainType::Floor;
    let position = floor.position();
    assert_eq!((position.x, position.y), (0, -300_000_000));
    let size = floor.size();
    assert_eq!((size.x, size.y), (910_000_000, 10_000_000));
    let collider = floor.collider();
    assert_eq!((collider.center.x, collider.center.y), (0, -300_000_000));
    assert_eq!((collider.half.x, collider.half.y), (455_000_000, 5_000_000));
}
