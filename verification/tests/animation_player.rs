use sprites::animation_player::{Animation, AnimationParams, AnimationPlayer};
use sprites::error::ConfigurationError;
use sprites::geometry::{DrawCall, Rect, UVec2};
use sprites::playback::FRAME_UNITS;
use sprites::texture::TextureInfo;

fn anim(id: &str, row: u32, frames: u32, fps: u32) -> Animation {
    Animation { id: id.to_string(), row, frames, fps }
}

fn sheet() -> TextureInfo {
    TextureInfo { width: 128, height: 96, sprite_size: Some(UVec2 { x: 32, y: 48 }) }
}

fn params(animations: Vec<Animation>) -> AnimationParams {
    AnimationParams {
        texture_id: "player".to_string(),
        frame_size: None,
        animations,
        is_deactivated: false,
    }
}

fn player() -> AnimationPlayer {
    let animations = vec![anim("idle", 0, 4, 10), anim("run", 1, 3, 5), anim("still", 2, 1, 0)];
    AnimationPlayer::new(params(animations), Some(sheet())).unwrap()
}

#[test]
fn default_animation_params_are_empty() {
    let p = AnimationParams::default();
    assert_eq!(p.texture_id, "");
    assert_eq!(p.frame_size, None);
    assert!(p.animations.is_empty());
    assert!(!p.is_deactivated);
}

#[test]
fn new_player_shows_first_frame_of_first_animation() {
    let p = player();
    assert_eq!(p.current_animation(), &anim("idle", 0, 4, 10));
    assert_eq!(p.current_frame(), 0);
    assert_eq!(p.frame_progress(), 0);
    assert!(!p.is_deactivated());
    assert!(p.is_playing());
    assert_eq!(p.get_size(), UVec2 { x: 32, y: 48 });
    assert_eq!(
        p.animations(),
        &vec![anim("idle", 0, 4, 10), anim("run", 1, 3, 5), anim("still", 2, 1, 0)]
    );
}

#[test]
fn frame_size_falls_back_to_whole_texture() {
    let tex = TextureInfo { width: 128, height: 96, sprite_size: None };
    let p = AnimationPlayer::new(params(vec![anim("a", 0, 1, 1)]), Some(tex)).unwrap();
    assert_eq!(p.get_size(), UVec2 { x: 128, y: 96 });
    let mut with_size = params(vec![anim("a", 0, 1, 1)]);
    with_size.frame_size = Some(UVec2 { x: 8, y: 4 });
    let p = AnimationPlayer::new(with_size, Some(sheet())).unwrap();
    assert_eq!(p.get_size(), UVec2 { x: 8, y: 4 });
}

#[test]
fn no_animations_is_rejected() {
    let r = AnimationPlayer::new(params(vec![]), Some(sheet()));
    assert_eq!(r.unwrap_err(), ConfigurationError::NoAnimations);
}

#[test]
fn duplicate_id_is_rejected() {
    let r = AnimationPlayer::new(params(vec![anim("a", 0, 1, 1), anim("a", 1, 2, 2)]), Some(sheet()));
    assert_eq!(r.unwrap_err(), ConfigurationError::DuplicateAnimationId { position: 1 });
}

#[test]
fn first_repeated_id_is_reported() {
    let animations =
        vec![anim("a", 0, 1, 1), anim("b", 0, 1, 1), anim("c", 0, 1, 1), anim("b", 0, 1, 1), anim("a", 0, 1, 1)];
    let r = AnimationPlayer::new(params(animations), Some(sheet()));
    assert_eq!(r.unwrap_err(), ConfigurationError::DuplicateAnimationId { position: 3 });
}

#[test]
fn animation_without_frames_is_accepted() {
    let animations = vec![anim("idle", 0, 4, 10), anim("hold", 1, 0, 10)];
    let mut p = AnimationPlayer::new(params(animations), Some(sheet())).unwrap();
    assert_eq!(p.animations(), &vec![anim("idle", 0, 4, 10), anim("hold", 1, 0, 10)]);
    assert_eq!(p.get_animation("hold"), Some(&anim("hold", 1, 0, 10)));
    // the animation with frames plays as ever
    p.update(250_000);
    assert_eq!((p.current_frame(), p.frame_progress()), (2, 500_000));
}

#[test]
fn only_animation_may_be_without_frames() {
    let mut p = AnimationPlayer::new(params(vec![anim("hold", 2, 0, 10)]), Some(sheet())).unwrap();
    assert_eq!(p.current_animation(), &anim("hold", 2, 0, 10));
    assert_eq!((p.current_frame(), p.frame_progress()), (0, 0));
    assert!(p.is_playing());
    p.update(250_000);
    assert_eq!((p.current_frame(), p.frame_progress()), (0, 0));
}

#[test]
fn selected_animation_without_frames_holds_still() {
    let animations = vec![anim("idle", 0, 4, 10), anim("hold", 1, 0, 10)];
    let mut p = AnimationPlayer::new(params(animations), Some(sheet())).unwrap();
    p.update(250_000);
    assert_eq!(p.set_animation("hold"), Some(&anim("hold", 1, 0, 10)));
    assert_eq!((p.current_frame(), p.frame_progress()), (0, 0));
    p.update(250_000);
    p.update(u64::MAX);
    assert_eq!((p.current_frame(), p.frame_progress()), (0, 0));
    p.set_frame(3);
    assert_eq!(p.current_frame(), 0);
    p.set_frame(usize::MAX);
    assert_eq!(p.current_frame(), 0);
    assert!(p.is_playing());
    let source = Rect { x: 0, y: 48, w: 32, h: 48 };
    assert_eq!(
        p.draw(false, false, false),
        Some(DrawCall { source, flip_x: false, flip_y: false, outline: false })
    );
    // back on an animation with frames, playback goes on from its first frame
    assert!(p.set_animation("idle").is_some());
    p.update(150_000);
    assert_eq!((p.current_frame(), p.frame_progress()), (1, 500_000));
}

#[test]
fn faults_are_reported_in_order() {
    let r = AnimationPlayer::new(params(vec![]), None);
    assert_eq!(r.unwrap_err(), ConfigurationError::MissingTexture);
    let r = AnimationPlayer::new(params(vec![anim("a", 0, 1, 1), anim("a", 1, 2, 2)]), None);
    assert_eq!(r.unwrap_err(), ConfigurationError::MissingTexture);
    let r = AnimationPlayer::new(params(vec![anim("a", 0, 1, 1), anim("a", 1, 2, 2)]), Some(sheet()));
    assert_eq!(r.unwrap_err(), ConfigurationError::DuplicateAnimationId { position: 1 });
}

#[test]
fn deactivated_player_starts_stopped() {
    let mut p = params(vec![anim("a", 0, 4, 10)]);
    p.is_deactivated = true;
    let player = AnimationPlayer::new(p, Some(sheet())).unwrap();
    let mut player = player;
    assert!(player.is_deactivated());
    assert!(!player.is_playing());
    // it was never asked to play: activating it does not start it
    player.set_deactivated(false);
    assert!(!player.is_playing());
    player.update(1_000_000);
    assert_eq!(player.current_frame(), 0);
    player.play();
    assert!(player.is_playing());
}

#[test]
fn get_animation_finds_by_id() {
    let p = player();
    assert_eq!(p.get_animation("run"), Some(&anim("run", 1, 3, 5)));
    assert_eq!(p.get_animation("idle"), Some(&anim("idle", 0, 4, 10)));
    assert_eq!(p.get_animation("jump"), None);
    assert_eq!(p.get_animation(""), None);
    assert_eq!(p.get_animation("Run"), None);
}

#[test]
fn set_animation_with_unknown_id_changes_nothing() {
    let mut p = player();
    p.update(250_000);
    assert_eq!((p.current_frame(), p.frame_progress()), (2, 500_000));
    assert_eq!(p.set_animation("jump"), None);
    assert_eq!(p.current_animation(), &anim("idle", 0, 4, 10));
    assert_eq!((p.current_frame(), p.frame_progress()), (2, 500_000));
    assert!(p.is_playing());
}

#[test]
fn set_animation_with_known_id_starts_at_first_frame() {
    let mut p = player();
    p.update(250_000);
    assert_eq!(p.current_frame(), 2);
    assert_eq!(p.set_animation("run"), Some(&anim("run", 1, 3, 5)));
    assert_eq!(p.current_animation(), &anim("run", 1, 3, 5));
    assert_eq!(p.current_frame(), 0);
    assert_eq!(p.frame_progress(), 0);
    // selecting the animation already selected starts it again
    p.update(500_000);
    assert_eq!(p.current_frame(), 2);
    assert!(p.set_animation("run").is_some());
    assert_eq!((p.current_animation().row, p.current_frame()), (1, 0));
}

#[test]
fn tick_of_two_intervals_advances_two_frames() {
    // 10 frames per second, ticks of 0.2 s
    let mut p = player();
    // the very first tick falls one short: the second frame's time has
    // passed in full but is not yet exceeded
    p.update(200_000);
    assert_eq!(p.current_frame(), 1);
    assert_eq!(p.frame_progress(), FRAME_UNITS);
    let mut expected = 1;
    for _ in 0..10 {
        p.update(200_000);
        expected = (expected + 2) % 4;
        assert_eq!(p.current_frame(), expected);
        assert_eq!(p.frame_progress(), FRAME_UNITS);
    }
}

#[test]
fn frame_wraps_from_last_to_first() {
    let mut p = player();
    p.set_frame(3);
    p.update(100_001);
    assert_eq!(p.current_frame(), 0);
    assert_eq!(p.frame_progress(), 10);
}

#[test]
fn frame_gives_way_only_after_its_whole_time() {
    let mut p = player();
    p.update(99_999);
    assert_eq!((p.current_frame(), p.frame_progress()), (0, 999_990));
    p.update(1);
    assert_eq!((p.current_frame(), p.frame_progress()), (0, 1_000_000));
    p.update(1);
    assert_eq!((p.current_frame(), p.frame_progress()), (1, 10));
}

#[test]
fn small_ticks_add_up() {
    let mut p = player();
    for _ in 0..30 {
        p.update(16_667);
    }
    // 30 * 16_667 us = 500_010 us = 5 frames and 10 us
    assert_eq!(p.current_frame(), 5 % 4);
    assert_eq!(p.frame_progress(), 100);
}

#[test]
fn tick_of_no_time_changes_nothing() {
    let mut p = player();
    p.update(0);
    assert_eq!((p.current_frame(), p.frame_progress()), (0, 0));
    p.update(150_000);
    p.update(0);
    assert_eq!((p.current_frame(), p.frame_progress()), (1, 500_000));
}

#[test]
fn animation_at_zero_rate_never_advances() {
    let mut p = player();
    assert!(p.set_animation("still").is_some());
    p.update(u64::MAX);
    assert_eq!((p.current_frame(), p.frame_progress()), (0, 0));
}

#[test]
fn longest_tick_does_not_overflow() {
    let animations = vec![anim("fast", 0, 7, u32::MAX)];
    let mut p = AnimationPlayer::new(params(animations), Some(sheet())).unwrap();
    p.update(u64::MAX);
    let total: u128 = u64::MAX as u128 * u32::MAX as u128;
    let steps: u128 = (total - 1) / 1_000_000;
    assert_eq!(p.current_frame() as u128, steps % 7);
    assert_eq!(p.frame_progress() as u128, total - steps * 1_000_000);
    p.update(u64::MAX);
    assert!(p.current_frame() < 7 && p.frame_progress() <= FRAME_UNITS);
}

#[test]
fn stopped_player_does_not_advance() {
    let mut p = player();
    p.update(250_000);
    p.stop();
    assert!(!p.is_playing());
    p.update(1_000_000);
    assert_eq!((p.current_frame(), p.frame_progress()), (2, 500_000));
    p.play();
    assert!(p.is_playing());
    assert_eq!((p.current_frame(), p.frame_progress()), (2, 500_000));
    p.update(100_000);
    assert_eq!((p.current_frame(), p.frame_progress()), (3, 500_000));
}

#[test]
fn deactivated_player_neither_advances_nor_draws() {
    let mut p = player();
    p.update(250_000);
    p.set_deactivated(true);
    assert!(!p.is_playing());
    p.update(1_000_000);
    assert_eq!(p.current_animation(), &anim("idle", 0, 4, 10));
    assert_eq!((p.current_frame(), p.frame_progress()), (2, 500_000));
    assert_eq!(p.draw(false, false, false), None);
    assert_eq!(p.draw(true, true, true), None);
    p.play();
    assert!(!p.is_playing());
    p.set_deactivated(false);
    assert!(p.is_playing());
    p.stop();
    p.set_deactivated(true);
    p.set_deactivated(false);
    assert!(!p.is_playing());
}

#[test]
fn set_frame_wraps_past_the_last_frame() {
    let mut p = player();
    p.set_frame(2);
    assert_eq!(p.current_frame(), 2);
    p.set_frame(4);
    assert_eq!(p.current_frame(), 0);
    p.set_frame(7);
    assert_eq!(p.current_frame(), 3);
    p.set_frame(usize::MAX);
    assert_eq!(p.current_frame() as usize, usize::MAX % 4);
    assert_eq!((p.current_animation().row, p.frame_progress(), p.is_playing()), (0, 0, true));
}

#[test]
fn player_draw_cuts_the_frame_from_the_row() {
    let mut p = player();
    let first = Rect { x: 0, y: 0, w: 32, h: 48 };
    assert_eq!(p.draw(false, false, false), Some(DrawCall { source: first, flip_x: false, flip_y: false, outline: false }));
    p.update(250_000);
    let third = Rect { x: 64, y: 0, w: 32, h: 48 };
    assert_eq!(
        p.draw(true, false, true),
        Some(DrawCall { source: third, flip_x: true, flip_y: false, outline: true })
    );
    assert!(p.set_animation("run").is_some());
    p.set_frame(1);
    let run = Rect { x: 32, y: 48, w: 32, h: 48 };
    assert_eq!(p.draw(false, true, false), Some(DrawCall { source: run, flip_x: false, flip_y: true, outline: false }));
    assert_eq!(p.get_size(), UVec2 { x: 32, y: 48 });
}

#[test]
fn far_frames_of_a_large_sheet_are_named_in_full() {
    let mut with_size = params(vec![anim("a", u32::MAX, u32::MAX, 1)]);
    with_size.frame_size = Some(UVec2 { x: u32::MAX, y: u32::MAX });
    let mut p = AnimationPlayer::new(with_size, Some(sheet())).unwrap();
    p.set_frame(u32::MAX as usize - 1);
    let m = u32::MAX as u64;
    let source = Rect { x: (m - 1) * m, y: m * m, w: u32::MAX, h: u32::MAX };
    assert_eq!(p.draw(false, false, false), Some(DrawCall { source, flip_x: false, flip_y: false, outline: false }));
}
