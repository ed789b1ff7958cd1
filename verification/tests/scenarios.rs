use anguilla_core::geometry::Aabb;
use anguilla_core::input::InputState;
use anguilla_core::locomotion::Facing;
use anguilla_core::locomotion::LocomotionState;
use anguilla_core::world::Character;
use anguilla_core::world::World;

const DT: u64 = 16;

// A character standing on a thin floor-like collider: the collider's
// top edge touches the character's bottom edge, so every tick at rest
// classifies a Top contact.
fn grounded_world_at(cx: i64) -> World {
    let character = Character::new(cx, -263_000_000);
    let mut colliders = Vec::new();
    colliders.push(Aabb::new(cx, -300_000_000, 455_000_000, 5_000_000));
    World::new(character, colliders)
}

fn held_right() -> InputState {
    let mut input = InputState::idle();
    input.right_held = true;
    input
}

fn held_left() -> InputState {
    let mut input = InputState::idle();
    input.left_held = true;
    input
}

fn attack_press() -> InputState {
    let mut input = InputState::idle();
    input.attack_just_pressed = true;
    input
}

#[test]
fn holding_right_for_one_tick_enters_run() {
    // From rest in Neutral, one 16 ms tick of the right key gives
    // velocity.x of 12.8 u/s (800 * 0.016), a Top contact with no
    // vertical motion, and a transition to Run with frame range [0,7].
    let mut world = grounded_world_at(0);
    let out = world.tick(&held_right(), DT);
    assert_eq!(world.character.velocity.x, 12_800);
    assert_eq!(world.character.velocity.y, 0);
    assert_eq!(out.contacts, 1);
    assert_eq!(out.entered, Some(LocomotionState::Run));
    let descriptor = out.reconfig.expect("entering Run reconfigures the animation");
    assert_eq!((descriptor.first, descriptor.last), (0, 7));
    assert_eq!(world.character.anim.first, 0);
    assert_eq!(world.character.anim.last, 7);
    assert_eq!(world.character.anim.index, 0);
}

#[test]
fn staying_in_run_triggers_no_second_entry() {
    // Re-evaluating the transition rule with velocity and cooldown
    // unchanged fires the entry side effect once, not once per tick.
    let mut world = grounded_world_at(0);
    let first = world.tick(&held_right(), DT);
    assert_eq!(first.entered, Some(LocomotionState::Run));
    let second = world.tick(&held_right(), DT);
    assert_eq!(second.entered, None);
    assert_eq!(second.reconfig, None);
    assert_eq!(world.character.state, LocomotionState::Run);
    let third = world.tick(&held_right(), DT);
    assert_eq!(third.entered, None);
}

#[test]
fn resting_in_neutral_triggers_no_entry() {
    let mut world = grounded_world_at(0);
    let out = world.tick(&InputState::idle(), DT);
    assert_eq!(out.entered, None);
    assert_eq!(out.reconfig, None);
    assert_eq!(world.character.state, LocomotionState::Neutral);
}

#[test]
fn attack_spawns_a_projectile_and_locks_the_state() {
    // A grounded attack trigger forces Attack, arms the 1.2 s
    // cooldown, and spawns one projectile at the character's position
    // offset by the facing, flying at (500, 0) u/s.  For the next
    // 1.2 s of ticks, held movement keys produce no transition.
    let mut world = grounded_world_at(0);
    let out = world.tick(&attack_press(), DT);
    assert_eq!(out.triggers, 1);
    assert_eq!(out.entered, Some(LocomotionState::Attack));
    assert_eq!(world.character.state, LocomotionState::Attack);
    assert_eq!(world.character.cooldown.remaining_ms, 1_200);
    assert_eq!(world.projectiles.len(), 1);
    let spawned = world.projectiles[0];
    assert_eq!(spawned.position.x, 32_000_000);
    assert_eq!(spawned.position.y, -263_000_000);
    assert_eq!(spawned.velocity.x, 500_000);
    assert_eq!(spawned.velocity.y, 0);
    // 74 further ticks leave 16 ms on the cooldown: always locked.
    for _ in 0..74 {
        let held = world.tick(&held_left(), DT);
        assert_eq!(held.entered, None);
        assert_eq!(world.character.state, LocomotionState::Attack);
        assert_eq!(world.character.facing, Facing::Right);
    }
    assert_eq!(world.character.cooldown.remaining_ms, 16);
    // The 75th tick expires the cooldown; motion transitions resume.
    let released = world.tick(&held_left(), DT);
    assert_eq!(released.entered, Some(LocomotionState::Neutral));
    assert_eq!(world.character.state, LocomotionState::Neutral);
}

#[test]
fn spawned_projectile_flies_and_animates() {
    let mut world = grounded_world_at(0);
    world.tick(&attack_press(), DT);
    assert_eq!(world.projectiles.len(), 1);
    world.tick(&InputState::idle(), DT);
    let flying = world.projectiles[0];
    assert_eq!(flying.position.x, 32_000_000 + 500_000 * 16);
    assert_eq!(flying.position.y, -263_000_000);
    assert_eq!(flying.anim.elapsed_ms, 16);
    assert_eq!((flying.anim.first, flying.anim.last), (0, 7));
}

#[test]
fn attack_while_facing_left_spawns_leftward() {
    let mut world = grounded_world_at(0);
    // One tick of leftward motion turns the facing.
    let turned = world.tick(&held_left(), DT);
    assert!(turned.facing_changed);
    assert_eq!(world.character.facing, Facing::Left);
    assert!(world.character.mirrored());
    // Wait for the decay to stop the character, then attack.
    for _ in 0..10 {
        world.tick(&InputState::idle(), DT);
    }
    assert_eq!(world.character.velocity.x, 0);
    let px = world.character.position.x;
    world.tick(&attack_press(), DT);
    let spawned = world.projectiles[0];
    assert_eq!(spawned.position.x, px - 32_000_000);
    assert_eq!(spawned.velocity.x, -500_000);
}

#[test]
fn out_of_range_projectile_despawns() {
    // An attack fired far to the right spawns past the despawn range;
    // the projectile is culled the same tick.
    let mut world = grounded_world_at(1_999_000_000);
    let out = world.tick(&attack_press(), DT);
    assert_eq!(out.triggers, 1);
    assert_eq!(world.projectiles.len(), 0);
}

#[test]
fn holding_jump_on_the_ground_launches_upward() {
    let mut world = grounded_world_at(0);
    let mut input = InputState::idle();
    input.up_held = true;
    let out = world.tick(&input, DT);
    assert_eq!(world.character.velocity.y, 500_000);
    assert_eq!(out.entered, Some(LocomotionState::Jump));
    let descriptor = out.reconfig.expect("entering Jump reconfigures the animation");
    assert_eq!((descriptor.first, descriptor.last), (0, 3));
}

#[test]
fn airborne_character_gains_gravity_per_tick() {
    // High above the floor there is no contact: the one collider
    // applies one gravity increment per tick.
    let character = Character::new(0, 0);
    let mut colliders = Vec::new();
    colliders.push(Aabb::new(0, -300_000_000, 455_000_000, 5_000_000));
    let mut world = World::new(character, colliders);
    let out = world.tick(&InputState::idle(), DT);
    assert_eq!(out.contacts, 0);
    assert_eq!(world.character.velocity.y, -8_000);
    world.tick(&InputState::idle(), DT);
    assert_eq!(world.character.velocity.y, -16_000);
}

#[test]
fn each_intersecting_collider_emits_a_contact() {
    let character = Character::new(0, -263_000_000);
    let mut colliders = Vec::new();
    colliders.push(Aabb::new(0, -300_000_000, 455_000_000, 5_000_000));
    colliders.push(Aabb::new(100_000_000, -300_000_000, 455_000_000, 5_000_000));
    let mut world = World::new(character, colliders);
    let out = world.tick(&InputState::idle(), DT);
    assert_eq!(out.contacts, 2);
}

#[test]
fn gravity_applies_once_per_non_intersecting_collider() {
    // The resolver adds the gravity increment for every collider the
    // character misses, so two distant colliders double the fall rate
    // of one tick; with the single configured floor the two rules
    // coincide.
    let character = Character::new(0, 0);
    let mut colliders = Vec::new();
    colliders.push(Aabb::new(0, -300_000_000, 455_000_000, 5_000_000));
    colliders.push(Aabb::new(2_000_000_000, -300_000_000, 455_000_000, 5_000_000));
    let mut world = World::new(character, colliders);
    let out = world.tick(&InputState::idle(), DT);
    assert_eq!(out.contacts, 0);
    assert_eq!(world.character.velocity.y, -16_000);
}

#[test]
fn released_key_decays_velocity_without_crossing_zero() {
    let mut world = grounded_world_at(0);
    // Build up some rightward speed, then release.
    for _ in 0..5 {
        world.tick(&held_right(), DT);
    }
    assert_eq!(world.character.velocity.x, 64_000);
    world.tick(&InputState::idle(), DT);
    assert_eq!(world.character.velocity.x, 48_000);
    world.tick(&InputState::idle(), DT);
    assert_eq!(world.character.velocity.x, 32_000);
    world.tick(&InputState::idle(), DT);
    world.tick(&InputState::idle(), DT);
    assert_eq!(world.character.velocity.x, 0);
    world.tick(&InputState::idle(), DT);
    assert_eq!(world.character.velocity.x, 0);
}

#[test]
fn movement_keys_are_suppressed_during_attack() {
    let mut world = grounded_world_at(0);
    world.tick(&attack_press(), DT);
    assert_eq!(world.character.state, LocomotionState::Attack);
    let mut push = held_right();
    push.up_held = true;
    let out = world.tick(&push, DT);
    // Neither the movement intent nor the jump impulse applies while
    // the Attack state holds; the character stays at rest on the
    // floor.
    assert_eq!(world.character.velocity.x, 0);
    assert_eq!(world.character.velocity.y, 0);
    assert_eq!(out.entered, None);
}
