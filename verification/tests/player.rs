use game::assets::{Asset, Pose};
use game::player::{
    Input, Player, Vec2, ANIMATION_FPS, GRAVITY, HOR_VELOCITY, JUMP_VELOCITY, UNIT,
};

const TICK: u32 = 100_000;

fn held(set: fn(&mut Input)) -> Input {
    let mut input = Input::none();
    set(&mut input);
    input
}

fn right() -> Input {
    held(|input| input.right = true)
}

fn left() -> Input {
    held(|input| input.left = true)
}

fn down() -> Input {
    held(|input| input.down = true)
}

fn space() -> Input {
    held(|input| input.space = true)
}

#[test]
fn constants_are_in_millionths() {
    assert_eq!(UNIT, 1_000_000);
    assert_eq!(HOR_VELOCITY, 400 * UNIT);
    assert_eq!(JUMP_VELOCITY, 300 * UNIT);
    assert_eq!(GRAVITY, 480);
    assert_eq!(ANIMATION_FPS, 11);
}

#[test]
fn player_starts_idle_at_rest() {
    let player = Player::new();
    assert_eq!(player.pose(), Pose::Idle);
    assert_eq!(player.position(), Vec2 { x: 0, y: 0 });
    assert_eq!(player.velocity(), Vec2 { x: 0, y: 0 });
    assert!(!player.jumping());
    assert!(player.can_change_pose());
    assert_eq!(player.sprite().atlas(), Asset::AnimationIdle);
    assert_eq!(player.sprite().frame_count(), 10);
    assert_eq!(player.sprite().frame_index(), 0);
}

#[test]
fn jump_from_idle_for_one_frame() {
    let mut player = Player::new();
    player.update(&space(), 100_000);
    assert_eq!(player.pose(), Pose::Jumping);
    assert!(player.jumping());
    assert_eq!(player.velocity(), Vec2 { x: 0, y: 252 * UNIT });
    assert_eq!(player.position(), Vec2 { x: 0, y: 30 * UNIT });
}

#[test]
fn idle_player_on_the_ground_stays_put() {
    let mut player = Player::new();
    for _ in 0..50 {
        player.update(&Input::none(), 16_667);
        assert_eq!(player.pose(), Pose::Idle);
        assert_eq!(player.position(), Vec2 { x: 0, y: 0 });
        assert_eq!(player.velocity(), Vec2 { x: 0, y: 0 });
        assert!(!player.jumping());
    }
}

#[test]
fn running_forwards_moves_right() {
    let mut player = Player::new();
    player.update(&right(), 10_000);
    assert_eq!(player.pose(), Pose::RunningForwards);
    assert_eq!(player.velocity(), Vec2 { x: HOR_VELOCITY, y: 0 });
    assert_eq!(player.position(), Vec2 { x: 4 * UNIT, y: 0 });
    assert_eq!(player.sprite().atlas(), Asset::AnimationRunningForwards);
}

#[test]
fn running_backwards_moves_left() {
    let mut player = Player::new();
    player.update(&held(|input| input.a = true), 10_000);
    assert_eq!(player.pose(), Pose::RunningBackwards);
    assert_eq!(player.velocity(), Vec2 { x: -HOR_VELOCITY, y: 0 });
    assert_eq!(player.position(), Vec2 { x: -4 * UNIT, y: 0 });
    assert_eq!(player.sprite().atlas(), Asset::AnimationRunningBackwards);
}

#[test]
fn travel_rounds_towards_zero_in_both_directions() {
    let mut forwards = Player::new();
    forwards.update(&right(), 1);
    assert_eq!(forwards.position().x, 400);
    let mut backwards = Player::new();
    backwards.update(&left(), 1);
    assert_eq!(backwards.position().x, -400);
    let mut jumper = Player::new();
    jumper.update(&space(), 3);
    assert_eq!(jumper.position().y, 900);
    assert_eq!(jumper.velocity().y, JUMP_VELOCITY - 1440);
    jumper.update(&space(), 3);
    // 299_998_560 * 3 / 1_000_000 = 899.99568, rounded towards zero
    assert_eq!(jumper.position().y, 900 + 899);
    assert_eq!(jumper.velocity().y, JUMP_VELOCITY - 2880);
}

#[test]
fn keys_are_tried_in_order() {
    let mut all = Input::none();
    all.d = true;
    all.left = true;
    all.s = true;
    all.space = true;
    let mut player = Player::new();
    player.update(&all, 1_000);
    assert_eq!(player.pose(), Pose::RunningForwards);

    let mut player = Player::new();
    all.d = false;
    player.update(&all, 1_000);
    assert_eq!(player.pose(), Pose::RunningBackwards);

    let mut player = Player::new();
    all.left = false;
    player.update(&all, 1_000);
    assert_eq!(player.pose(), Pose::Rolling);
    assert!(!player.jumping());

    let mut player = Player::new();
    all.s = false;
    player.update(&all, 1_000);
    assert_eq!(player.pose(), Pose::Jumping);
    assert!(player.jumping());
}

#[test]
fn rolling_keeps_the_horizontal_velocity() {
    let mut player = Player::new();
    player.update(&right(), 1_000);
    // the running animation has to reach its last frame first
    while !player.can_change_pose() {
        player.update(&right(), TICK);
    }
    player.update(&down(), 1_000);
    assert_eq!(player.pose(), Pose::Rolling);
    assert_eq!(player.velocity().x, HOR_VELOCITY);
}

#[test]
fn releasing_the_keys_stops_the_player_once_the_animation_ends() {
    let mut player = Player::new();
    player.update(&right(), 1_000);
    assert_eq!(player.pose(), Pose::RunningForwards);
    let mut frames = 0;
    loop {
        let gate_open = {
            // whether the pose may change is decided once the animation has moved on
            let mut probe = player;
            probe.update(&Input::none(), TICK);
            probe.pose() != Pose::RunningForwards
        };
        player.update(&Input::none(), TICK);
        frames += 1;
        if gate_open {
            break;
        }
        assert_eq!(player.pose(), Pose::RunningForwards);
        assert_eq!(player.velocity().x, HOR_VELOCITY);
    }
    assert_eq!(player.pose(), Pose::Idle);
    assert_eq!(player.velocity().x, 0);
    assert!(frames <= 10);
}

#[test]
fn pose_is_kept_until_the_animation_has_played() {
    let mut player = Player::new();
    player.update(&down(), TICK);
    assert_eq!(player.pose(), Pose::Rolling);
    assert_eq!(player.sprite().frame_count(), 12);
    let start = player.sprite().frame_index();
    assert_eq!(start, 1);
    // frames 2 to 10 are not the last: the keys are ignored
    for index in (start + 1)..11 {
        player.update(&right(), TICK);
        assert_eq!(player.sprite().frame_index(), index);
        assert_eq!(player.pose(), Pose::Rolling);
        assert_eq!(player.velocity().x, 0);
    }
    // the animation reaches its last frame: the keys count again
    player.update(&right(), TICK);
    assert_eq!(player.pose(), Pose::RunningForwards);
    assert_eq!(player.velocity().x, HOR_VELOCITY);
    assert_eq!(player.sprite().frame_index(), 11 % 10);
}

#[test]
fn animation_moves_on_after_more_than_a_frame_time() {
    let mut player = Player::new();
    player.update(&Input::none(), 50_000);
    assert_eq!(player.sprite().frame_index(), 0);
    player.update(&Input::none(), 40_909);
    // 90_909 microseconds times 11 is just short of a second
    assert_eq!(player.sprite().frame_index(), 0);
    player.update(&Input::none(), 1);
    assert_eq!(player.sprite().frame_index(), 1);
    player.update(&Input::none(), 90_909);
    assert_eq!(player.sprite().frame_index(), 1);
    player.update(&Input::none(), 0);
    assert_eq!(player.sprite().frame_index(), 1);
    player.update(&Input::none(), u32::MAX);
    assert_eq!(player.sprite().frame_index(), 2);
}

#[test]
fn jump_rises_falls_and_lands() {
    let mut player = Player::new();
    player.update(&space(), TICK);
    let mut highest = player.position().y;
    let mut frames = 1;
    while player.jumping() {
        let before = player.velocity().y;
        player.update(&Input::none(), TICK);
        frames += 1;
        assert!(player.position().y >= 0);
        if player.jumping() {
            assert_eq!(player.velocity().y, before - 48 * UNIT);
        }
        highest = highest.max(player.position().y);
        assert!(frames < 100);
    }
    assert_eq!(frames, 14);
    assert_eq!(highest, 109_200_000);
    assert_eq!(player.position().y, 0);
    assert_eq!(player.velocity().y, 0);
    assert!(!player.jumping());
    assert_ne!(player.pose(), Pose::Jumping);
}

#[test]
fn position_never_goes_below_the_ground() {
    let inputs = [space(), right(), Input::none(), down(), left(), space(), space()];
    let steps = [0u32, 1, 16_667, 33_333, 100_000, 1_000_000, u32::MAX, 7];
    let mut player = Player::new();
    for round in 0..2_000usize {
        let input = inputs[(round * 5 + round / 7) % inputs.len()];
        let dt = steps[(round * 3 + round / 11) % steps.len()];
        let airborne = player.position().y > 0;
        player.update(&input, dt);
        assert!(player.position().y >= 0);
        if player.position().y == 0 && airborne {
            assert_eq!(player.velocity().y, 0);
            assert!(!player.jumping());
        }
        if player.position().y == 0 && player.velocity().y != 0 {
            panic!("a player on the ground has vertical velocity");
        }
    }
}

#[test]
fn landing_ends_the_jump_pose_although_the_animation_has_not_played() {
    let mut player = Player::new();
    player.update(&space(), 250_000);
    for _ in 0..4 {
        assert_eq!(player.pose(), Pose::Jumping);
        assert!(player.position().y > 0);
        player.update(&Input::none(), 250_000);
    }
    assert_eq!(player.pose(), Pose::Jumping);
    assert!(player.position().y > 0);
    assert_eq!(player.sprite().frame_index(), 2);
    // the animation wraps to its first frame of three, so the pose may not
    // change in the frame that brings the player down
    player.update(&right(), 250_000);
    assert_eq!(player.sprite().frame_index(), 0);
    assert_eq!(player.pose(), Pose::Idle);
    assert_eq!(player.position().y, 0);
    assert_eq!(player.velocity(), Vec2 { x: 0, y: 0 });
    assert!(!player.jumping());
}

#[test]
fn no_second_jump_in_the_air() {
    let mut player = Player::new();
    player.update(&space(), 10_000);
    assert!(player.jumping());
    let mut last = player.velocity().y;
    for _ in 0..30 {
        player.update(&space(), 10_000);
        if !player.jumping() {
            break;
        }
        assert_eq!(player.velocity().y, last - 4_800_000);
        last = player.velocity().y;
    }
}

#[test]
fn holding_jump_in_the_air_in_another_pose_falls_idle() {
    let mut player = Player::new();
    player.update(&space(), TICK);
    // change to running as soon as the jump animation allows it
    while player.pose() == Pose::Jumping {
        player.update(&right(), TICK);
    }
    assert_eq!(player.pose(), Pose::RunningForwards);
    assert!(player.jumping());
    assert!(player.position().y > 0);
    while !player.can_change_pose() {
        player.update(&space(), 1);
    }
    assert!(player.jumping());
    player.update(&space(), 1);
    assert_eq!(player.pose(), Pose::Idle);
    assert_eq!(player.velocity().x, 0);
    assert!(player.jumping());
}

#[test]
fn jump_pose_is_kept_in_the_air_without_keys() {
    let mut player = Player::new();
    player.update(&space(), TICK);
    player.update(&Input::none(), TICK);
    player.update(&Input::none(), TICK);
    // the jump animation has been on its last frame; no key is held
    assert_eq!(player.pose(), Pose::Jumping);
    assert!(player.position().y > 0);
}

#[test]
fn gravity_pulls_even_on_the_ground() {
    let mut player = Player::new();
    player.update(&right(), TICK);
    // the pull of the frame is taken away again by the landing
    assert_eq!(player.velocity().y, 0);
    assert_eq!(player.position().y, 0);
}

#[test]
fn animation_follows_the_pose() {
    let mut player = Player::new();
    for _ in 0..9 {
        player.update(&Input::none(), TICK);
    }
    assert_eq!(player.sprite().frame_index(), 9);
    player.update(&space(), 1);
    assert_eq!(player.pose(), Pose::Jumping);
    assert_eq!(player.sprite().atlas(), Asset::AnimationJumping);
    assert_eq!(player.sprite().frame_count(), 3);
    assert_eq!(player.sprite().frame_index(), 0);
}

#[test]
fn position_stops_at_the_end_of_the_range() {
    let mut player = Player::new();
    let mut last = 0;
    for _ in 0..6_000_000u32 {
        player.update(&right(), u32::MAX);
        assert!(player.position().x >= last);
        last = player.position().x;
        if last == i64::MAX {
            break;
        }
    }
    assert_eq!(player.position().x, i64::MAX);
    player.update(&right(), u32::MAX);
    assert_eq!(player.position().x, i64::MAX);
    assert_eq!(player.pose(), Pose::RunningForwards);
}
