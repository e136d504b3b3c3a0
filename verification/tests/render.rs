use game::draw::{Color, Rect};
use game::render::{background_offsets, fps_color, player_dest, to_pixels};

#[test]
fn fps_color_mapping() {
    assert_eq!(fps_color(10), Color::Red);
    assert_eq!(fps_color(20), Color::Orange);
    assert_eq!(fps_color(29), Color::Orange);
    assert_eq!(fps_color(30), Color::Lime);
}

#[test]
fn fps_color_boundaries() {
    assert_eq!(fps_color(0), Color::Red);
    assert_eq!(fps_color(14), Color::Red);
    assert_eq!(fps_color(15), Color::Orange);
    assert_eq!(fps_color(60), Color::Lime);
    assert_eq!(fps_color(i32::MAX), Color::Lime);
    assert_eq!(fps_color(-1), Color::Lime);
    assert_eq!(fps_color(i32::MIN), Color::Lime);
}

#[test]
fn background_offsets_moving_forwards() {
    assert_eq!(background_offsets(150, 800), (-150, 650));
    assert_eq!(background_offsets(950, 800), (-150, 650));
    assert_eq!(background_offsets(800, 800), (0, 800));
    assert_eq!(background_offsets(799, 800), (-799, 1));
}

#[test]
fn background_offsets_moving_backwards() {
    assert_eq!(background_offsets(-150, 800), (150, -650));
    assert_eq!(background_offsets(-950, 800), (150, -650));
    assert_eq!(background_offsets(-800, 800), (0, -800));
}

#[test]
fn background_offsets_at_the_origin_coincide() {
    assert_eq!(background_offsets(0, 800), (0, 0));
}

#[test]
fn background_offsets_without_a_screen() {
    assert_eq!(background_offsets(150, 0), (0, 0));
    assert_eq!(background_offsets(-150, 0), (0, 0));
}

#[test]
fn background_offsets_at_the_ends_of_the_range() {
    assert_eq!(background_offsets(i64::MAX, 1000), (-807, 193));
    assert_eq!(background_offsets(i64::MIN, 1000), (808, -192));
    assert_eq!(background_offsets(i64::MIN, u32::MAX), (2147483648, -2147483647));
    assert_eq!(background_offsets(5, 1), (0, 1));
}

#[test]
fn background_copies_cover_the_screen() {
    for x in [-2000i64, -801, -800, -1, 0, 1, 150, 799, 800, 12345] {
        let width: u32 = 800;
        let (first, second) = background_offsets(x, width);
        assert_eq!(second - first, 800 * x.signum());
        for column in 0..800i64 {
            let in_first = first <= column && column < first + 800;
            let in_second = second <= column && column < second + 800;
            assert!(in_first || in_second);
        }
    }
}

#[test]
fn whole_pixels_round_towards_zero() {
    assert_eq!(to_pixels(0), 0);
    assert_eq!(to_pixels(999_999), 0);
    assert_eq!(to_pixels(1_000_000), 1);
    assert_eq!(to_pixels(30_500_000), 30);
    assert_eq!(to_pixels(-999_999), 0);
    assert_eq!(to_pixels(-1_000_000), -1);
    assert_eq!(to_pixels(-30_500_000), -30);
    assert_eq!(to_pixels(i64::MAX), 9_223_372_036_854);
    assert_eq!(to_pixels(i64::MIN), -9_223_372_036_854);
}

#[test]
fn player_is_centered_and_raised_by_its_height() {
    assert_eq!(player_dest(1360, 800, 0), Rect { x: 320, y: 160, w: 720, h: 480 });
    assert_eq!(player_dest(1360, 800, 30_000_000), Rect { x: 320, y: 130, w: 720, h: 480 });
    assert_eq!(player_dest(1360, 800, 30_999_999), Rect { x: 320, y: 130, w: 720, h: 480 });
    assert_eq!(player_dest(0, 0, 0), Rect { x: -360, y: -240, w: 720, h: 480 });
    assert_eq!(player_dest(801, 601, 0), Rect { x: 40, y: 60, w: 720, h: 480 });
}
