use librepods::ui::tray_icon::{glyph, render, Pixmap, GLYPH_WIDTH, ICON_SIZE};
use std::f32::consts::{PI, TAU};

fn pixel(pixmap: &Pixmap, x: u32, y: u32) -> [u8; 4] {
    let i = ((y * pixmap.width + x) * 4) as usize;
    pixmap.argb[i..i + 4].try_into().unwrap()
}

fn count(pixmap: &Pixmap, argb: [u8; 4]) -> usize {
    pixmap
        .argb
        .chunks_exact(4)
        .filter(|p| **p == argb)
        .count()
}

const ARGB_GREEN: [u8; 4] = [255, 0, 255, 0];
const ARGB_GREY: [u8; 4] = [255, 128, 128, 128];
const ARGB_WHITE: [u8; 4] = [255, 255, 255, 255];
const CLEAR: [u8; 4] = [0, 0, 0, 0];

#[test]
fn every_icon_is_64_square_argb() {
    for text_mode in [false, true] {
        for level in [None, Some(0), Some(7), Some(55), Some(100), Some(255)] {
            let icon = render(level, text_mode, true);
            assert_eq!((icon.width, icon.height), (ICON_SIZE, ICON_SIZE));
            assert_eq!(icon.argb.len(), (ICON_SIZE * ICON_SIZE * 4) as usize);
        }
    }
}

#[test]
fn ring_fills_clockwise_from_the_top() {
    let icon = render(Some(25), false, false);
    // Top of the ring, just right of center: filled.
    assert_eq!(pixel(&icon, 33, 7), ARGB_GREEN);
    // Right side, at the quarter mark and a little past it.
    assert_eq!(pixel(&icon, 57, 31), ARGB_GREEN);
    assert_eq!(pixel(&icon, 57, 36), ARGB_GREY);
    // Left side and bottom: unfilled.
    assert_eq!(pixel(&icon, 6, 32), ARGB_GREY);
    assert_eq!(pixel(&icon, 32, 58), ARGB_GREY);
    // Center and corner stay transparent.
    assert_eq!(pixel(&icon, 32, 32), CLEAR);
    assert_eq!(pixel(&icon, 0, 0), CLEAR);
}

#[test]
fn full_ring_has_no_grey() {
    let icon = render(Some(100), false, false);
    assert_eq!(count(&icon, ARGB_GREY), 0);
    assert!(count(&icon, ARGB_GREEN) > 0);
}

#[test]
fn unknown_level_renders_no_fill() {
    let icon = render(None, false, false);
    assert_eq!(count(&icon, ARGB_GREEN), 0);
    assert!(count(&icon, ARGB_GREY) > 0);

    let empty = render(Some(0), false, false);
    assert_eq!(count(&empty, ARGB_GREEN), 0);
}

#[test]
fn charging_draws_the_bolt_in_the_middle() {
    let icon = render(None, false, true);
    assert_eq!(pixel(&icon, 32, 31), ARGB_GREEN);
    assert_eq!(pixel(&render(None, false, false), 32, 31), CLEAR);
}

#[test]
fn text_mode_draws_digits_centered() {
    let icon = render(Some(100), true, false);
    assert_eq!(count(&icon, ARGB_GREEN), 0);
    let white: Vec<(u32, u32)> = (0..ICON_SIZE)
        .flat_map(|y| (0..ICON_SIZE).map(move |x| (x, y)))
        .filter(|&(x, y)| pixel(&icon, x, y) == ARGB_WHITE)
        .collect();
    let min_x = white.iter().map(|p| p.0).min().unwrap();
    let max_x = white.iter().map(|p| p.0).max().unwrap();
    let min_y = white.iter().map(|p| p.1).min().unwrap();
    let max_y = white.iter().map(|p| p.1).max().unwrap();
    // "100" at 3x6 icon pixels per font pixel: a 51x42 box from (6, 11).
    // The "1" has no pixel in its first column, so ink starts one unit in.
    assert_eq!((min_x, max_x), (6 + 3, 6 + 51 - 1));
    assert_eq!((min_y, max_y), (11, 11 + 42 - 1));
}

#[test]
fn text_mode_charging_is_green_and_unknown_is_a_dash() {
    let charging = render(Some(42), true, true);
    assert_eq!(count(&charging, ARGB_WHITE), 0);
    assert!(count(&charging, ARGB_GREEN) > 0);

    let unknown = render(None, true, false);
    // The dash is one font row: 5 units of 6x6 icon pixels.
    assert_eq!(count(&unknown, ARGB_WHITE), 5 * 6 * 6);
    assert_eq!(pixel(&unknown, 32, 32), ARGB_WHITE);
}

#[test]
fn bitmap_font_covers_digits_and_dash() {
    for c in "0123456789-".chars() {
        let rows = glyph(c).unwrap();
        assert!(rows.iter().all(|r| *r < 1 << GLYPH_WIDTH));
        assert!(rows.iter().any(|r| *r != 0));
    }
    assert!(glyph('%').is_none());
}

/// The ring by angles and distances.
fn ring_pixel(level: Option<u8>, x: u32, y: u32) -> [u8; 4] {
    let center = ICON_SIZE as f32 / 2.0;
    let filled = level.map_or(0.0, |l| f32::from(l.min(100)) / 100.0 * TAU);
    let dx = x as f32 - center;
    let dy = y as f32 - center;
    let dist = dx.hypot(dy);
    if dist <= 22.0 || dist > 28.0 {
        return CLEAR;
    }
    let from_top = (dy.atan2(dx) + PI / 2.0).rem_euclid(TAU);
    if from_top < filled {
        ARGB_GREEN
    } else {
        ARGB_GREY
    }
}

/// The bolt by the even-odd rule.
fn in_bolt(x: f32, y: f32) -> bool {
    let points = [
        (38.0, 6.0),
        (18.0, 36.0),
        (30.0, 36.0),
        (24.0, 58.0),
        (46.0, 26.0),
        (34.0, 26.0),
        (40.0, 6.0),
    ];
    let mut inside = false;
    let mut prev: (f32, f32) = points[points.len() - 1];
    for point in points {
        let ((x1, y1), (x2, y2)) = (prev, point);
        if (y1 > y) != (y2 > y) && x < (x2 - x1) * (y - y1) / (y2 - y1) + x1 {
            inside = !inside;
        }
        prev = point;
    }
    inside
}

#[test]
fn every_ring_follows_the_angles() {
    let levels = (0..=101u8).map(Some).chain([None, Some(255)]);
    for level in levels {
        let icon = render(level, false, false);
        for y in 0..ICON_SIZE {
            for x in 0..ICON_SIZE {
                assert_eq!(pixel(&icon, x, y), ring_pixel(level, x, y), "{level:?} {x} {y}");
            }
        }
    }
}

#[test]
fn the_bolt_is_drawn_over_the_ring() {
    for level in [None, Some(0), Some(60), Some(100)] {
        let icon = render(level, false, true);
        for y in 0..ICON_SIZE {
            for x in 0..ICON_SIZE {
                let expected = if in_bolt(x as f32 + 0.5, y as f32 + 0.5) {
                    ARGB_GREEN
                } else {
                    ring_pixel(level, x, y)
                };
                assert_eq!(pixel(&icon, x, y), expected, "{level:?} {x} {y}");
            }
        }
    }
}

#[test]
fn text_mode_shows_at_most_a_hundred() {
    assert_eq!(render(Some(255), true, false), render(Some(100), true, false));
    assert_ne!(render(Some(99), true, false), render(Some(100), true, false));
}

#[test]
fn arcs_grow_with_the_level() {
    let mut last = 0;
    for level in 0..=100u8 {
        let now = count(&render(Some(level), false, false), ARGB_GREEN);
        assert!(now >= last);
        last = now;
    }
}

#[test]
fn a_seven_is_drawn_from_its_rows() {
    // One digit is 5 units wide, at 6 by 6 icon pixels: a 30x42 box from (17, 11).
    let icon = render(Some(7), true, false);
    let rows = glyph('7').unwrap();
    for y in 0..ICON_SIZE {
        for x in 0..ICON_SIZE {
            let inside = (17..47).contains(&x) && (11..53).contains(&y);
            let set = inside && rows[((y - 11) / 6) as usize] & (1 << (4 - (x - 17) / 6)) != 0;
            let expected = if set { ARGB_WHITE } else { CLEAR };
            assert_eq!(pixel(&icon, x, y), expected, "{x} {y}");
        }
    }
}
