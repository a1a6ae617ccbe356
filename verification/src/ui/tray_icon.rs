//! Tray icon pixmaps drawn with plain pixel math: a battery ring, or the level
//! as digits from a built-in 5x7 bitmap font. No font or image crates, so the
//! tray does not depend on a font file or a text shaping stack.

use crate::text::decimal_text;
use vstd::prelude::*;

verus! {

/// Width and height of every icon, in pixels.
pub const ICON_SIZE: u32 = 64;

/// The ring lies between these distances from the center, in pixels.
pub const RING_INNER_RADIUS: i64 = 22;

pub const RING_OUTER_RADIUS: i64 = 28;

/// Glyph cell of the bitmap font, in font pixels.
pub const GLYPH_WIDTH: u32 = 5;

pub const GLYPH_HEIGHT: u32 = 7;

/// Room the digits may take inside the icon, in icon pixels.
pub const TEXT_MAX_WIDTH: u32 = 60;

pub const TEXT_MAX_HEIGHT: u32 = 48;

/// A color: red, green, blue and opacity.
#[derive(Debug, Clone, Copy, PartialEq, Eq, Structural)]
pub struct Rgba {
    pub r: u8,
    pub g: u8,
    pub b: u8,
    pub a: u8,
}

/// The color of an untouched pixel.
pub open spec fn clear() -> Rgba {
    Rgba { r: 0, g: 0, b: 0, a: 0 }
}

/// The color of the ring.
pub open spec fn grey() -> Rgba {
    Rgba { r: 128, g: 128, b: 128, a: 255 }
}

/// The color of the filled part of the ring, and of anything that charges.
pub open spec fn green() -> Rgba {
    Rgba { r: 0, g: 255, b: 0, a: 255 }
}

/// The color of the digits.
pub open spec fn white() -> Rgba {
    Rgba { r: 255, g: 255, b: 255, a: 255 }
}

/// A square icon as ARGB32 in network byte order (A, R, G, B per pixel, rows
/// top to bottom), the layout StatusNotifierItem pixmaps use.
#[derive(Debug, Clone, PartialEq, Eq)]
pub struct Pixmap {
    pub width: u32,
    pub height: u32,
    pub argb: Vec<u8>,
}

// The ring

/// Whether a pixel belongs to the ring, by its distance from the center.
pub open spec fn on_ring(dx: int, dy: int) -> bool {
    RING_INNER_RADIUS * RING_INNER_RADIUS < dx * dx + dy * dy <= RING_OUTER_RADIUS
        * RING_OUTER_RADIUS
}

/// The sines of a right angle's 25 equal parts, times 10000 and rounded.
pub open spec fn sines() -> Seq<int> {
    seq![
        0int, 628int, 1253int, 1874int, 2487int, 3090int, 3681int, 4258int,
        4818int, 5358int, 5878int, 6374int, 6845int, 7290int, 7705int, 8090int,
        8443int, 8763int, 9048int, 9298int, 9511int, 9686int, 9823int, 9921int,
        9980int, 10000int,
    ]
}

/// The quarter of the turn, clockwise from the top, that a direction lies in.
/// Each quarter has its first direction and not its last.
pub open spec fn quarter(dx: int, dy: int) -> int {
    if dx >= 0 && dy < 0 {
        0
    } else if dx > 0 && dy >= 0 {
        1
    } else if dx <= 0 && dy > 0 {
        2
    } else {
        3
    }
}

/// A direction turned back by whole quarters into the first one, as its part
/// to the right and its part upwards.
pub open spec fn turned_back(dx: int, dy: int) -> (int, int) {
    let q = quarter(dx, dy);
    if q == 0 {
        (dx, -dy)
    } else if q == 1 {
        (dy, dx)
    } else if q == 2 {
        (-dx, dy)
    } else {
        (-dy, -dx)
    }
}

/// Whether a direction comes, clockwise from the top, strictly before a
/// percentage of the whole turn: its angle is smaller, by quarters first and
/// then by the tangent within the quarter.
pub open spec fn before_percent(dx: int, dy: int, percent: int) -> bool {
    let q = quarter(dx, dy);
    let (right, up) = turned_back(dx, dy);
    q < percent / 25 || (q == percent / 25 && right * sines()[25 - percent % 25] < up
        * sines()[percent % 25])
}

/// The percentage of the ring to fill: none while the level is unknown, at
/// most all of it.
pub open spec fn filled_percent(level: Option<u8>) -> int {
    match level {
        Some(l) => if l > 100 {
            100
        } else {
            l as int
        },
        None => 0,
    }
}

/// The color of a pixel of the ring icon, by its distance from the center:
/// a grey ring with a green arc for the level, clockwise from the top.
pub open spec fn ring_color(level: Option<u8>, dx: int, dy: int) -> Rgba {
    if !on_ring(dx, dy) {
        clear()
    } else if before_percent(dx, dy, filled_percent(level)) {
        green()
    } else {
        grey()
    }
}

fn sine(part: usize) -> (value: i64)
    requires
        part <= 25,
    ensures
        value == sines()[part as int],
        0 <= value <= 10000,
{
    let table: [i64; 26] = [
        0, 628, 1253, 1874, 2487, 3090, 3681, 4258, 4818, 5358,
        5878, 6374, 6845, 7290, 7705, 8090, 8443, 8763, 9048, 9298,
        9511, 9686, 9823, 9921, 9980, 10000,
    ];
    proof {
        assert(table@.len() == 26);
        assert forall|i: int| 0 <= i < 26 implies table@[i] == sines()[i] && 0 <= #[trigger]
            table@[i] <= 10000 by {}
    }
    table[part]
}

/// Whether a pixel belongs to the ring, by its distance from the center.
pub(crate) fn ring_has(dx: i64, dy: i64) -> (yes: bool)
    requires
        -32 <= dx < 32,
        -32 <= dy < 32,
    ensures
        yes == on_ring(dx as int, dy as int),
{
    proof {
        lemma_small_product(dx as int, dx as int, 32, 32);
        lemma_small_product(dy as int, dy as int, 32, 32);
    }
    let distance: i64 = dx * dx + dy * dy;
    RING_INNER_RADIUS * RING_INNER_RADIUS < distance && distance <= RING_OUTER_RADIUS
        * RING_OUTER_RADIUS
}

/// How a direction lies to a percentage of the whole turn, clockwise from the
/// top: before it, and before it or at it.
fn against_percent(dx: i64, dy: i64, percent: usize) -> (compared: (bool, bool))
    requires
        -32 <= dx < 32,
        -32 <= dy < 32,
    ensures
        compared.0 == before_percent(dx as int, dy as int, percent as int),
        compared.1 == crate::ui::tray::up_to_percent(dx as int, dy as int, percent as int),
{
    let (q, right, up): (usize, i64, i64) = if dx >= 0 && dy < 0 {
        (0, dx, -dy)
    } else if dx > 0 && dy >= 0 {
        (1, dy, dx)
    } else if dx <= 0 && dy > 0 {
        (2, -dx, dy)
    } else {
        (3, -dy, -dx)
    };
    let sin: i64 = sine(percent % 25);
    let cos: i64 = sine(25 - percent % 25);
    proof {
        lemma_small_product(right as int, cos as int, 32, 10000);
        lemma_small_product(up as int, sin as int, 32, 10000);
    }
    let earlier = q < percent / 25;
    let same = q == percent / 25;
    (earlier || (same && right * cos < up * sin), earlier || (same && right * cos <= up * sin))
}

/// Whether an arc of a percentage reaches a pixel of the ring.
pub(crate) fn reaches(dx: i64, dy: i64, percent: usize) -> (yes: bool)
    requires
        -32 <= dx < 32,
        -32 <= dy < 32,
    ensures
        yes == crate::ui::tray::up_to_percent(dx as int, dy as int, percent as int),
{
    against_percent(dx, dy, percent).1
}

fn ring_pixel(level: Option<u8>, dx: i64, dy: i64) -> (color: Rgba)
    requires
        -32 <= dx < 32,
        -32 <= dy < 32,
    ensures
        color == ring_color(level, dx as int, dy as int),
{
    if !ring_has(dx, dy) {
        return Rgba { r: 0, g: 0, b: 0, a: 0 };
    }
    let percent: usize = match level {
        Some(l) => if l > 100 {
            100
        } else {
            l as usize
        },
        None => 0,
    };
    if against_percent(dx, dy, percent).0 {
        Rgba { r: 0, g: 255, b: 0, a: 255 }
    } else {
        Rgba { r: 128, g: 128, b: 128, a: 255 }
    }
}

proof fn lemma_small_product(x: int, y: int, bx: int, by: int)
    by (nonlinear_arith)
    requires
        -bx <= x <= bx,
        -by <= y <= by,
        0 <= bx,
        0 <= by,
    ensures
        -(bx * by) <= x * y <= bx * by,
{
}

proof fn lemma_sines_grow(a: int, b: int)
    requires
        0 <= a <= b <= 25,
    ensures
        0 <= sines()[a] <= sines()[b],
    decreases b - a,
{
    if a < b {
        lemma_sines_grow(a + 1, b);
    }
}

/// A ring that is fuller has every green pixel of a ring that is less full.
pub proof fn the_arc_grows_with_the_level(a: u8, b: u8, dx: int, dy: int)
    requires
        a <= b,
        ring_color(Some(a), dx, dy) == green(),
    ensures
        ring_color(Some(b), dx, dy) == green(),
{
    let x = filled_percent(Some(a));
    let y = filled_percent(Some(b));
    let q = quarter(dx, dy);
    let (right, up) = turned_back(dx, dy);
    if q == x / 25 && q == y / 25 {
        let i = x % 25;
        let j = y % 25;
        assert(i <= j);
        lemma_sines_grow(i, j);
        lemma_sines_grow(25 - j, 25 - i);
        assert(right >= 0 && up >= 0);
        assert(right * sines()[25 - j] <= right * sines()[25 - i]) by (nonlinear_arith)
            requires
                right >= 0,
                sines()[25 - j] <= sines()[25 - i],
        ;
        assert(up * sines()[i] <= up * sines()[j]) by (nonlinear_arith)
            requires
                up >= 0,
                sines()[i] <= sines()[j],
        ;
    }
}

/// A full ring has no grey pixel, and an empty one, like one whose level is
/// unknown, has no green one.
pub proof fn full_and_empty_rings(level: u8, dx: int, dy: int)
    ensures
        level >= 100 && on_ring(dx, dy) ==> ring_color(Some(level), dx, dy) == green(),
        on_ring(dx, dy) ==> ring_color(None, dx, dy) == grey(),
        on_ring(dx, dy) ==> ring_color(Some(0), dx, dy) == grey(),
{
    let (right, up) = turned_back(dx, dy);
    if on_ring(dx, dy) {
        assert(right >= 0);
        assert(right * sines()[25] >= 0) by (nonlinear_arith)
            requires
                right >= 0,
                sines()[25] == 10000,
        ;
        assert(up * sines()[0] == 0) by (nonlinear_arith)
            requires
                sines()[0] == 0,
        ;
    }
}

// The bolt

/// The corners of the lightning bolt drawn over the ring while a bud charges,
/// in icon pixel coordinates.
pub open spec fn bolt() -> Seq<(int, int)> {
    seq![(38int, 6int), (18, 36), (30, 36), (24, 58), (46, 26), (34, 26), (40, 6)]
}

/// Whether a ray to the right from the center of a pixel crosses an edge.
/// All in half pixels, so that centers are whole numbers.
pub open spec fn crosses(from: (int, int), to: (int, int), x: int, y: int) -> bool {
    let (px, py) = (2 * x + 1, 2 * y + 1);
    let (x1, y1) = (2 * from.0, 2 * from.1);
    let (x2, y2) = (2 * to.0, 2 * to.1);
    if y1 > py && y2 <= py {
        (px - x1) * (y2 - y1) > (x2 - x1) * (py - y1)
    } else if y2 > py && y1 <= py {
        (px - x1) * (y2 - y1) < (x2 - x1) * (py - y1)
    } else {
        false
    }
}

/// Whether the ray crosses an odd number of the first `n` edges of a polygon.
pub open spec fn crosses_odd(points: Seq<(int, int)>, n: nat, x: int, y: int) -> bool
    decreases n,
{
    if n == 0 {
        false
    } else {
        let from = points[(n + points.len() - 2) % (points.len() as int)];
        crosses_odd(points, (n - 1) as nat, x, y) != crosses(from, points[n - 1], x, y)
    }
}

/// Whether the center of a pixel lies in the bolt, by the even-odd rule.
pub open spec fn in_bolt(x: int, y: int) -> bool {
    crosses_odd(bolt(), 7, x, y)
}

fn crosses_edge(from: (i64, i64), to: (i64, i64), x: i64, y: i64) -> (yes: bool)
    requires
        0 <= x < 64,
        0 <= y < 64,
        0 <= from.0 < 64,
        0 <= from.1 < 64,
        0 <= to.0 < 64,
        0 <= to.1 < 64,
    ensures
        yes == crosses(
            (from.0 as int, from.1 as int),
            (to.0 as int, to.1 as int),
            x as int,
            y as int,
        ),
{
    let px: i64 = 2 * x + 1;
    let py: i64 = 2 * y + 1;
    let x1: i64 = 2 * from.0;
    let y1: i64 = 2 * from.1;
    let x2: i64 = 2 * to.0;
    let y2: i64 = 2 * to.1;
    proof {
        lemma_small_product(px - x1, y2 - y1, 128, 128);
        lemma_small_product(x2 - x1, py - y1, 128, 128);
    }
    if y1 > py && y2 <= py {
        (px - x1) * (y2 - y1) > (x2 - x1) * (py - y1)
    } else if y2 > py && y1 <= py {
        (px - x1) * (y2 - y1) < (x2 - x1) * (py - y1)
    } else {
        false
    }
}

/// Even-odd point in polygon test for the bolt.
fn bolt_contains(x: i64, y: i64) -> (inside: bool)
    requires
        0 <= x < 64,
        0 <= y < 64,
    ensures
        inside == in_bolt(x as int, y as int),
{
    let points: [(i64, i64); 7] = [
        (38, 6),
        (18, 36),
        (30, 36),
        (24, 58),
        (46, 26),
        (34, 26),
        (40, 6),
    ];
    let mut inside: bool = false;
    let mut prev: usize = 6;
    let mut i: usize = 0;
    proof {
        assert forall|j: int| 0 <= j < 7 implies {
            &&& (#[trigger] points@[j]).0 as int == bolt()[j].0
            &&& points@[j].1 as int == bolt()[j].1
            &&& 0 <= points@[j].0 < 64
            &&& 0 <= points@[j].1 < 64
        } by {}
    }
    while i < 7
        invariant
            i <= 7,
            0 <= x < 64,
            0 <= y < 64,
            prev == (i + 6) % 7,
            points@.len() == 7,
            forall|j: int|
                0 <= j < 7 ==> {
                    &&& (#[trigger] points@[j]).0 as int == bolt()[j].0
                    &&& points@[j].1 as int == bolt()[j].1
                    &&& 0 <= points@[j].0 < 64
                    &&& 0 <= points@[j].1 < 64
                },
            inside == crosses_odd(bolt(), i as nat, x as int, y as int),
        decreases 7 - i,
    {
        proof {
            assert(bolt().len() == 7);
            assert(bolt()[prev as int] == (points@[prev as int].0 as int, points@[prev as int].1 as int));
            assert(bolt()[i as int] == (points@[i as int].0 as int, points@[i as int].1 as int));
        }
        if crosses_edge(points[prev], points[i], x, y) {
            inside = !inside;
        }
        prev = i;
        i = i + 1;
    }
    inside
}

// The digits

/// Rows of a glyph, top to bottom; the fifth bit is the leftmost pixel.
pub open spec fn glyph_rows(c: char) -> Option<Seq<u8>> {
    if c == '0' {
        Some(seq![0x0Eu8, 0x11u8, 0x13u8, 0x15u8, 0x19u8, 0x11u8, 0x0Eu8])
    } else if c == '1' {
        Some(seq![0x04u8, 0x0Cu8, 0x04u8, 0x04u8, 0x04u8, 0x04u8, 0x0Eu8])
    } else if c == '2' {
        Some(seq![0x0Eu8, 0x11u8, 0x01u8, 0x02u8, 0x04u8, 0x08u8, 0x1Fu8])
    } else if c == '3' {
        Some(seq![0x1Fu8, 0x02u8, 0x04u8, 0x02u8, 0x01u8, 0x11u8, 0x0Eu8])
    } else if c == '4' {
        Some(seq![0x02u8, 0x06u8, 0x0Au8, 0x12u8, 0x1Fu8, 0x02u8, 0x02u8])
    } else if c == '5' {
        Some(seq![0x1Fu8, 0x10u8, 0x1Eu8, 0x01u8, 0x01u8, 0x11u8, 0x0Eu8])
    } else if c == '6' {
        Some(seq![0x06u8, 0x08u8, 0x10u8, 0x1Eu8, 0x11u8, 0x11u8, 0x0Eu8])
    } else if c == '7' {
        Some(seq![0x1Fu8, 0x01u8, 0x02u8, 0x04u8, 0x08u8, 0x08u8, 0x08u8])
    } else if c == '8' {
        Some(seq![0x0Eu8, 0x11u8, 0x11u8, 0x0Eu8, 0x11u8, 0x11u8, 0x0Eu8])
    } else if c == '9' {
        Some(seq![0x0Eu8, 0x11u8, 0x11u8, 0x0Fu8, 0x01u8, 0x02u8, 0x0Cu8])
    } else if c == '-' {
        Some(seq![0x00u8, 0x00u8, 0x00u8, 0x1Fu8, 0x00u8, 0x00u8, 0x00u8])
    } else {
        None
    }
}

/// Rows of a glyph, top to bottom; the fifth bit is the leftmost pixel.
pub fn glyph(c: char) -> (rows: Option<[u8; 7]>)
    ensures
        match rows {
            Some(r) => glyph_rows(c) == Some(r@),
            None => glyph_rows(c) is None,
        },
{
    if c == '0' {
        Some([0x0E, 0x11, 0x13, 0x15, 0x19, 0x11, 0x0E])
    } else if c == '1' {
        Some([0x04, 0x0C, 0x04, 0x04, 0x04, 0x04, 0x0E])
    } else if c == '2' {
        Some([0x0E, 0x11, 0x01, 0x02, 0x04, 0x08, 0x1F])
    } else if c == '3' {
        Some([0x1F, 0x02, 0x04, 0x02, 0x01, 0x11, 0x0E])
    } else if c == '4' {
        Some([0x02, 0x06, 0x0A, 0x12, 0x1F, 0x02, 0x02])
    } else if c == '5' {
        Some([0x1F, 0x10, 0x1E, 0x01, 0x01, 0x11, 0x0E])
    } else if c == '6' {
        Some([0x06, 0x08, 0x10, 0x1E, 0x11, 0x11, 0x0E])
    } else if c == '7' {
        Some([0x1F, 0x01, 0x02, 0x04, 0x08, 0x08, 0x08])
    } else if c == '8' {
        Some([0x0E, 0x11, 0x11, 0x0E, 0x11, 0x11, 0x0E])
    } else if c == '9' {
        Some([0x0E, 0x11, 0x11, 0x0F, 0x01, 0x02, 0x0C])
    } else if c == '-' {
        Some([0x00, 0x00, 0x00, 0x1F, 0x00, 0x00, 0x00])
    } else {
        None
    }
}

/// The text of a level: its number, at most 100, or a dash.
pub open spec fn level_text(level: Option<u8>) -> Seq<char> {
    match level {
        Some(l) => crate::text::decimal(if l > 100 {
            100
        } else {
            l as nat
        }),
        None => "-"@,
    }
}

/// The glyphs of a text.
pub open spec fn glyphs(text: Seq<char>) -> Seq<Seq<u8>> {
    text.map_values(|c: char| glyph_rows(c)->0)
}

/// The smaller of two numbers.
pub open spec fn smaller(a: int, b: int) -> int {
    if a < b {
        a
    } else {
        b
    }
}

/// The width of a text in font pixels, with one of spacing between glyphs.
pub open spec fn width_units(count: int) -> int {
    count * GLYPH_WIDTH + (count - 1)
}

/// The width of a font pixel: as far as the text box allows, at least 1.
pub open spec fn scale_x(count: int) -> int {
    let fit = TEXT_MAX_WIDTH as int / width_units(count);
    if fit < 1 {
        1
    } else {
        smaller(fit, TEXT_MAX_HEIGHT as int / GLYPH_HEIGHT as int)
    }
}

/// The height of a font pixel: up to twice its width, so short numbers stay
/// readable at tray size.
pub open spec fn scale_y(count: int) -> int {
    smaller(scale_x(count) * 2, TEXT_MAX_HEIGHT as int / GLYPH_HEIGHT as int)
}

/// Whether a bit of a glyph row is set; column 0 is the leftmost.
pub open spec fn bit_set(row: u8, col: int) -> bool {
    let weight = if col == 0 {
        16int
    } else if col == 1 {
        8
    } else if col == 2 {
        4
    } else if col == 3 {
        2
    } else {
        1
    };
    row as int / weight % 2 == 1
}

/// Whether a pixel has ink, for text in the bitmap font that is centered and
/// scaled up as far as the text box allows.
pub open spec fn ink(font: Seq<Seq<u8>>, x: int, y: int) -> bool {
    let count = font.len() as int;
    let left = (ICON_SIZE - width_units(count) * scale_x(count)) / 2;
    let top = (ICON_SIZE - GLYPH_HEIGHT * scale_y(count)) / 2;
    let unit = (x - left) / scale_x(count);
    let row = (y - top) / scale_y(count);
    &&& left <= x
    &&& top <= y
    &&& 0 <= unit / (GLYPH_WIDTH + 1) < count
    &&& unit % (GLYPH_WIDTH + 1) < GLYPH_WIDTH
    &&& row < GLYPH_HEIGHT
    &&& bit_set(font[unit / (GLYPH_WIDTH + 1)][row], unit % (GLYPH_WIDTH + 1))
}

proof fn lemma_level_text(level: Option<u8>)
    ensures
        1 <= level_text(level).len() <= 3,
        forall|i: int|
            0 <= i < level_text(level).len() ==> glyph_rows(#[trigger] level_text(level)[i]) is Some,
{
    reveal_strlit("-");
    match level {
        Some(l) => {
            let n: nat = if l > 100 {
                100
            } else {
                l as nat
            };
            reveal_with_fuel(crate::text::decimal, 3);
            lemma_digit_glyph(n % 10);
            lemma_digit_glyph(n / 10 % 10);
            lemma_digit_glyph(n / 10 / 10);
        },
        None => {},
    }
}

proof fn lemma_digit_glyph(d: nat)
    requires
        d < 10,
    ensures
        glyph_rows(crate::text::digit(d)) is Some,
{
}

fn level_glyphs(level: Option<u8>) -> (font: Vec<[u8; 7]>)
    ensures
        font@.len() == level_text(level).len(),
        1 <= font@.len() <= 3,
        forall|i: int|
            0 <= i < font@.len() ==> (#[trigger] font@[i])@ == glyphs(level_text(level))[i],
{
    let text: String = match level {
        Some(l) => decimal_text(
            if l > 100 {
                100
            } else {
                l as u64
            },
        ),
        None => "-".to_string(),
    };
    proof {
        lemma_level_text(level);
        assert(text@ == level_text(level));
    }
    let text = text.as_str();
    let n: usize = text.unicode_len();
    let mut font: Vec<[u8; 7]> = Vec::new();
    let mut i: usize = 0;
    while i < n
        invariant
            i <= n,
            n == text@.len(),
            text@ == level_text(level),
            font@.len() == i,
            forall|j: int|
                0 <= j < text@.len() ==> glyph_rows(#[trigger] level_text(level)[j]) is Some,
            forall|j: int|
                0 <= j < i ==> (#[trigger] font@[j])@ == glyphs(level_text(level))[j],
        decreases n - i,
    {
        let c = text.get_char(i);
        proof {
            assert(c == level_text(level)[i as int]);
        }
        match glyph(c) {
            Some(rows) => {
                font.push(rows);
            },
            None => {},
        }
        i = i + 1;
    }
    font
}

fn has_ink(font: &Vec<[u8; 7]>, x: u32, y: u32) -> (yes: bool)
    requires
        1 <= font@.len() <= 3,
        x < 64,
        y < 64,
    ensures
        yes == ink(Seq::new(font@.len(), |i: int| font@[i]@), x as int, y as int),
{
    let count: u32 = font.len() as u32;
    let units: u32 = count * GLYPH_WIDTH + (count - 1);
    let fit_y: u32 = TEXT_MAX_HEIGHT / GLYPH_HEIGHT;
    let fit_x: u32 = TEXT_MAX_WIDTH / units;
    proof {
        assert(units == 5 ==> fit_x == 12) by (nonlinear_arith)
            requires
                fit_x == 60u32 / units,
        ;
        assert(units == 11 ==> fit_x == 5) by (nonlinear_arith)
            requires
                fit_x == 60u32 / units,
        ;
        assert(units == 17 ==> fit_x == 3) by (nonlinear_arith)
            requires
                fit_x == 60u32 / units,
        ;
    }
    let wide: u32 = if fit_x < 1 {
        1
    } else if fit_x < fit_y {
        fit_x
    } else {
        fit_y
    };
    let tall: u32 = if wide * 2 < fit_y {
        wide * 2
    } else {
        fit_y
    };
    proof {
        assert(count == 1 || count == 2 || count == 3);
        if count == 1 {
            assert(units * wide == 30) by (nonlinear_arith)
                requires
                    units == 5,
                    wide == 6,
            ;
        } else if count == 2 {
            assert(units * wide == 55) by (nonlinear_arith)
                requires
                    units == 11,
                    wide == 5,
            ;
        } else {
            assert(units * wide == 51) by (nonlinear_arith)
                requires
                    units == 17,
                    wide == 3,
            ;
        }
    }
    let left: u32 = (ICON_SIZE - units * wide) / 2;
    let top: u32 = (ICON_SIZE - GLYPH_HEIGHT * tall) / 2;
    if x < left || y < top {
        return false;
    }
    let unit: u32 = (x - left) / wide;
    let row: u32 = (y - top) / tall;
    let at: u32 = unit / (GLYPH_WIDTH + 1);
    let col: u32 = unit % (GLYPH_WIDTH + 1);
    if at >= count || col >= GLYPH_WIDTH || row >= GLYPH_HEIGHT {
        return false;
    }
    let bits: u8 = font[at as usize][row as usize];
    let weight: u8 = if col == 0 {
        16
    } else if col == 1 {
        8
    } else if col == 2 {
        4
    } else if col == 3 {
        2
    } else {
        1
    };
    bits / weight % 2 == 1
}

// The icon

/// The color of a pixel of the icon.
pub open spec fn icon_color(
    level: Option<u8>,
    text_mode: bool,
    charging: bool,
    x: int,
    y: int,
) -> Rgba {
    if text_mode {
        if !ink(glyphs(level_text(level)), x, y) {
            clear()
        } else if charging {
            green()
        } else {
            white()
        }
    } else if charging && in_bolt(x, y) {
        green()
    } else {
        ring_color(level, x - 32, y - 32)
    }
}

/// A byte of a color, in network byte order.
pub open spec fn argb_byte(color: Rgba, i: int) -> u8 {
    if i == 0 {
        color.a
    } else if i == 1 {
        color.r
    } else if i == 2 {
        color.g
    } else {
        color.b
    }
}

/// The bytes of the icon.
pub open spec fn icon_bytes(level: Option<u8>, text_mode: bool, charging: bool) -> Seq<u8> {
    Seq::new(
        64 * 64 * 4,
        |i: int| argb_byte(icon_color(level, text_mode, charging, i / 4 % 64, i / 4 / 64), i % 4),
    )
}

/// Draw the tray icon. `level` None draws "-" in text mode, so an unknown
/// battery never looks like an empty one there. Otherwise it draws a ring with
/// no fill, as an empty battery does.
pub fn render(level: Option<u8>, text_mode: bool, charging: bool) -> (icon: Pixmap)
    ensures
        icon.width == ICON_SIZE,
        icon.height == ICON_SIZE,
        icon.argb@ == icon_bytes(level, text_mode, charging),
{
    let font = level_glyphs(level);
    let mut argb: Vec<u8> = Vec::new();
    let mut i: u32 = 0;
    proof {
        assert(Seq::new(font@.len(), |i: int| font@[i]@) =~= glyphs(level_text(level)));
    }
    while i < ICON_SIZE * ICON_SIZE
        invariant
            i <= ICON_SIZE * ICON_SIZE,
            1 <= font@.len() <= 3,
            Seq::new(font@.len(), |i: int| font@[i]@) == glyphs(level_text(level)),
            argb@.len() == 4 * i,
            forall|j: int|
                0 <= j < 4 * i ==> #[trigger] argb@[j] == icon_bytes(level, text_mode, charging)[j],
        decreases ICON_SIZE * ICON_SIZE - i,
    {
        let x: u32 = i % ICON_SIZE;
        let y: u32 = i / ICON_SIZE;
        let color = if text_mode {
            if !has_ink(&font, x, y) {
                Rgba { r: 0, g: 0, b: 0, a: 0 }
            } else if charging {
                Rgba { r: 0, g: 255, b: 0, a: 255 }
            } else {
                Rgba { r: 255, g: 255, b: 255, a: 255 }
            }
        } else if charging && bolt_contains(x as i64, y as i64) {
            Rgba { r: 0, g: 255, b: 0, a: 255 }
        } else {
            ring_pixel(level, x as i64 - 32, y as i64 - 32)
        };
        proof {
            assert(color == icon_color(level, text_mode, charging, x as int, y as int));
        }
        argb.push(color.a);
        argb.push(color.r);
        argb.push(color.g);
        argb.push(color.b);
        i = i + 1;
    }
    proof {
        assert(argb@ =~= icon_bytes(level, text_mode, charging));
    }
    Pixmap { width: ICON_SIZE, height: ICON_SIZE, argb }
}

// What the icon looks like

/// Each digit, and the dash, has its own bitmap of five by seven pixels, and no
/// other character has one.
pub proof fn characters_have_their_bitmaps(c: char)
    ensures
        glyph_rows('0') == Some(
            seq![0x0Eu8, 0x11u8, 0x13u8, 0x15u8, 0x19u8, 0x11u8, 0x0Eu8],
        ),
        glyph_rows('1') == Some(
            seq![0x04u8, 0x0Cu8, 0x04u8, 0x04u8, 0x04u8, 0x04u8, 0x0Eu8],
        ),
        glyph_rows('2') == Some(
            seq![0x0Eu8, 0x11u8, 0x01u8, 0x02u8, 0x04u8, 0x08u8, 0x1Fu8],
        ),
        glyph_rows('3') == Some(
            seq![0x1Fu8, 0x02u8, 0x04u8, 0x02u8, 0x01u8, 0x11u8, 0x0Eu8],
        ),
        glyph_rows('4') == Some(
            seq![0x02u8, 0x06u8, 0x0Au8, 0x12u8, 0x1Fu8, 0x02u8, 0x02u8],
        ),
        glyph_rows('5') == Some(
            seq![0x1Fu8, 0x10u8, 0x1Eu8, 0x01u8, 0x01u8, 0x11u8, 0x0Eu8],
        ),
        glyph_rows('6') == Some(
            seq![0x06u8, 0x08u8, 0x10u8, 0x1Eu8, 0x11u8, 0x11u8, 0x0Eu8],
        ),
        glyph_rows('7') == Some(
            seq![0x1Fu8, 0x01u8, 0x02u8, 0x04u8, 0x08u8, 0x08u8, 0x08u8],
        ),
        glyph_rows('8') == Some(
            seq![0x0Eu8, 0x11u8, 0x11u8, 0x0Eu8, 0x11u8, 0x11u8, 0x0Eu8],
        ),
        glyph_rows('9') == Some(
            seq![0x0Eu8, 0x11u8, 0x11u8, 0x0Fu8, 0x01u8, 0x02u8, 0x0Cu8],
        ),
        glyph_rows('-') == Some(
            seq![0x00u8, 0x00u8, 0x00u8, 0x1Fu8, 0x00u8, 0x00u8, 0x00u8],
        ),
        glyph_rows(c) is Some <==> ('0' <= c <= '9' || c == '-'),
{
}

/// A level is drawn as its number, at most 100, and an unknown one as a dash,
/// so that no level looks like an unknown one.
pub proof fn the_drawn_text_is_the_level(level: u8)
    ensures
        level <= 100 ==> crate::text::number_of(level_text(Some(level))) == level,
        level > 100 ==> crate::text::number_of(level_text(Some(level))) == 100,
        1 <= level_text(Some(level)).len() <= 3,
        level_text(None) == seq!['-'],
        !level_text(Some(level)).contains('-'),
{
    reveal_strlit("-");
    lemma_level_text(Some(level));
    let n: nat = if level > 100 {
        100
    } else {
        level as nat
    };
    crate::text::decimals_read_back(n);
    assert(level_text(None) =~= seq!['-']);
}

/// Where the pixels of a text are: of one character from column 17 and 6 pixels
/// wide each, of two from column 4 and 5 wide, of three from column 6 and 3
/// wide; always from row 11 and 6 pixels tall. A character takes five of those
/// and one for the gap. Such a pixel has ink exactly if the bit of its
/// character's row is set, the highest of the five bits on the left.
pub proof fn characters_are_drawn_from_their_rows(
    font: Seq<Seq<u8>>,
    at: int,
    row: int,
    col: int,
    dx: int,
    dy: int,
)
    requires
        1 <= font.len() <= 3,
        0 <= at < font.len(),
        0 <= row < 7,
        0 <= col < 6,
        0 <= dy < 6,
        0 <= dx < (if font.len() == 1 {
            6int
        } else if font.len() == 2 {
            5
        } else {
            3
        }),
    ensures
        ({
            let (left, wide) = if font.len() == 1 {
                (17int, 6int)
            } else if font.len() == 2 {
                (4, 5)
            } else {
                (6, 3)
            };
            let weights = seq![16int, 8, 4, 2, 1];
            let x = left + (6 * at + col) * wide + dx;
            let y = 11 + 6 * row + dy;
            ink(font, x, y) <==> (col < 5 && font[at][row] as int / weights[col] % 2 == 1)
        }),
{
    let count = font.len() as int;
    let (left, wide) = if font.len() == 1 {
        (17int, 6int)
    } else if font.len() == 2 {
        (4, 5)
    } else {
        (6, 3)
    };
    let unit = 6 * at + col;
    let x = left + unit * wide + dx;
    let y = 11 + 6 * row + dy;
    lemma_text_box(count);
    assert((unit * wide + dx) / wide == unit) by (nonlinear_arith)
        requires
            0 <= dx < wide,
            wide > 0,
    ;
    assert((6 * row + dy) / 6 == row);
    assert(unit / 6 == at && unit % 6 == col);
    assert(x - left == unit * wide + dx);
    assert(unit * wide >= 0) by (nonlinear_arith)
        requires
            unit >= 0,
            wide > 0,
    ;
}

proof fn lemma_text_box(count: int)
    requires
        1 <= count <= 3,
    ensures
        scale_y(count) == 6,
        count == 1 ==> scale_x(count) == 6 && (ICON_SIZE - width_units(count) * scale_x(count)) / 2
            == 17,
        count == 2 ==> scale_x(count) == 5 && (ICON_SIZE - width_units(count) * scale_x(count)) / 2
            == 4,
        count == 3 ==> scale_x(count) == 3 && (ICON_SIZE - width_units(count) * scale_x(count)) / 2
            == 6,
        (ICON_SIZE - GLYPH_HEIGHT * scale_y(count)) / 2 == 11,
{
    if count == 1 {
        assert(width_units(1) == 5);
        assert(60int / 5 == 12);
        assert(scale_x(1) == 6);
        assert(width_units(1) * scale_x(1) == 30) by (nonlinear_arith)
            requires
                width_units(1) == 5,
                scale_x(1) == 6,
        ;
    } else if count == 2 {
        assert(width_units(2) == 11);
        assert(60int / 11 == 5);
        assert(scale_x(2) == 5);
        assert(width_units(2) * scale_x(2) == 55) by (nonlinear_arith)
            requires
                width_units(2) == 11,
                scale_x(2) == 5,
        ;
    } else {
        assert(width_units(3) == 17);
        assert(60int / 17 == 3);
        assert(scale_x(3) == 3);
        assert(width_units(3) * scale_x(3) == 51) by (nonlinear_arith)
            requires
                width_units(3) == 17,
                scale_x(3) == 3,
        ;
    }
}

/// Outside its box a text leaves every pixel clear.
pub proof fn nothing_is_drawn_outside_the_text(font: Seq<Seq<u8>>, x: int, y: int)
    requires
        1 <= font.len() <= 3,
        y < 11 || y >= 53 || x < 4 || x >= 60,
    ensures
        !ink(font, x, y),
{
    lemma_text_box(font.len() as int);
    let count = font.len() as int;
    if y >= 53 {
        assert((y - 11) / 6 >= 7);
    }
    if x >= 60 {
        assert((x - 17) / 6 >= 7);
        assert((x - 4) / 5 >= 11);
        assert((x - 6) / 3 >= 18);
    }
}

/// The colors of the icon: digits are white, green while a bud charges, on
/// nothing; otherwise the ring is grey or green on nothing, with a green bolt
/// over it exactly while a bud charges.
pub proof fn the_icon_has_these_colors(level: Option<u8>, charging: bool, x: int, y: int)
    ensures
        ({
            let digits = icon_color(level, true, charging, x, y);
            let drawn = ink(glyphs(level_text(level)), x, y);
            &&& !drawn ==> digits.a == 0
            &&& drawn ==> digits.a == 255 && digits.g == 255 && digits.r == digits.b
            &&& drawn ==> (digits.r == 0 <==> charging) && (digits.r == 255 <==> !charging)
        }),
        ({
            let ring = icon_color(level, false, charging, x, y);
            &&& charging && in_bolt(x, y) ==> ring.r == 0 && ring.g == 255 && ring.b == 0 && ring.a
                == 255
            &&& !(charging && in_bolt(x, y)) ==> (ring.a == 0 || (ring.a == 255 && (ring.g == 255 && ring.r
                == 0 && ring.b == 0 || ring.r == 128 && ring.g == 128 && ring.b == 128)))
            &&& !(charging && in_bolt(x, y)) ==> (ring.a == 255 <==> 484 < (x - 32) * (x - 32) + (y
                - 32) * (y - 32) <= 784)
        }),
{
}

/// The bytes of the icon are those of its pixels, row by row, opacity first and
/// then red, green and blue.
pub proof fn pixels_are_sent_opacity_first(
    level: Option<u8>,
    text_mode: bool,
    charging: bool,
    x: int,
    y: int,
)
    requires
        0 <= x < 64,
        0 <= y < 64,
    ensures
        ({
            let bytes = icon_bytes(level, text_mode, charging);
            let color = icon_color(level, text_mode, charging, x, y);
            let at = 4 * (64 * y + x);
            &&& bytes.len() == 16384
            &&& bytes[at] == color.a
            &&& bytes[at + 1] == color.r
            &&& bytes[at + 2] == color.g
            &&& bytes[at + 3] == color.b
        }),
{
    let at = 4 * (64 * y + x);
    assert(at / 4 == 64 * y + x && (at + 1) / 4 == 64 * y + x && (at + 2) / 4 == 64 * y + x && (at
        + 3) / 4 == 64 * y + x);
    assert((64 * y + x) % 64 == x && (64 * y + x) / 64 == y);
    assert(at % 4 == 0 && (at + 1) % 4 == 1 && (at + 2) % 4 == 2 && (at + 3) % 4 == 3);
}

/// A quarter, a half and three quarters of the battery fill as much of the
/// ring, clockwise from the top: the upper right, the right half, and all but
/// the upper left.
pub proof fn quarters_of_the_battery_fill_quarters_of_the_ring(dx: int, dy: int)
    requires
        on_ring(dx, dy),
    ensures
        ring_color(Some(25), dx, dy) == green() <==> (dx >= 0 && dy < 0),
        ring_color(Some(50), dx, dy) == green() <==> (dx > 0 || (dx == 0 && dy < 0)),
        ring_color(Some(75), dx, dy) == green() <==> !(dx < 0 && dy <= 0),
        green() != grey(),
{
    let (right, up) = turned_back(dx, dy);
    assert(dx * dx + dy * dy > 484);
    assert(!(dx == 0 && dy == 0));
    assert(right * sines()[25] >= 0) by (nonlinear_arith)
        requires
            right >= 0,
            sines()[25] == 10000,
    ;
    assert(up * sines()[0] == 0) by (nonlinear_arith)
        requires
            sines()[0] == 0,
    ;
}

/// The table holds sines of a hundredth turn each, in ten thousandths: they
/// begin with 0, grow by ever smaller steps to the whole, and with the cosine, the
/// sine from the other end, they lie on a circle.
pub proof fn the_table_holds_sines(i: int)
    requires
        0 <= i <= 25,
    ensures
        sines().len() == 26,
        sines()[0] == 0,
        sines()[25] == 10000,
        i < 25 ==> sines()[i] < sines()[i + 1],
        0 < i < 25 ==> sines()[i + 1] - sines()[i] < sines()[i] - sines()[i - 1],
        99_992_400 <= sines()[i] * sines()[i] + sines()[25 - i] * sines()[25 - i] <= 100_007_600,
{
    assert(0 * 0 + 10000 * 10000 == 100000000) by (nonlinear_arith);
    assert(628 * 628 + 9980 * 9980 == 99994784) by (nonlinear_arith);
    assert(1253 * 1253 + 9921 * 9921 == 99996250) by (nonlinear_arith);
    assert(1874 * 1874 + 9823 * 9823 == 100003205) by (nonlinear_arith);
    assert(2487 * 2487 + 9686 * 9686 == 100003765) by (nonlinear_arith);
    assert(3090 * 3090 + 9511 * 9511 == 100007221) by (nonlinear_arith);
    assert(3681 * 3681 + 9298 * 9298 == 100002565) by (nonlinear_arith);
    assert(4258 * 4258 + 9048 * 9048 == 99996868) by (nonlinear_arith);
    assert(4818 * 4818 + 8763 * 8763 == 100003293) by (nonlinear_arith);
    assert(5358 * 5358 + 8443 * 8443 == 99992413) by (nonlinear_arith);
    assert(5878 * 5878 + 8090 * 8090 == 99998984) by (nonlinear_arith);
    assert(6374 * 6374 + 7705 * 7705 == 99994901) by (nonlinear_arith);
    assert(6845 * 6845 + 7290 * 7290 == 99998125) by (nonlinear_arith);
}

/// Which pixels a ray to the right crosses an edge from, for an edge that goes
/// down: those in its rows and to its left.
proof fn lemma_edge(from: (int, int), to: (int, int), x: int, y: int)
    requires
        from.1 < to.1,
    ensures
        ({
            let (px, py) = (2 * x + 1, 2 * y + 1);
            let (wide, high) = (to.0 - from.0, to.1 - from.1);
            let left = px * high - py * wide < 2 * (from.0 * high - from.1 * wide);
            &&& crosses(from, to, x, y) == (from.1 <= y < to.1 && left)
            &&& crosses(to, from, x, y) == (from.1 <= y < to.1 && left)
        }),
{
    let (px, py) = (2 * x + 1, 2 * y + 1);
    let (x1, y1) = (2 * from.0, 2 * from.1);
    let (x2, y2) = (2 * to.0, 2 * to.1);
    let (wide, high) = (to.0 - from.0, to.1 - from.1);
    assert((px - x1) * (y2 - y1) == 2 * (px * high - 2 * (from.0 * high))) by (nonlinear_arith)
        requires
            x1 == 2 * from.0,
            y2 - y1 == 2 * high,
    ;
    assert((x2 - x1) * (py - y1) == 2 * (py * wide - 2 * (from.1 * wide))) by (nonlinear_arith)
        requires
            x2 - x1 == 2 * wide,
            y1 == 2 * from.1,
    ;
    assert((px - x2) * (y1 - y2) == -2 * (px * high - 2 * (to.0 * high))) by (nonlinear_arith)
        requires
            x2 == 2 * to.0,
            y1 - y2 == -2 * high,
    ;
    assert((x1 - x2) * (py - y2) == -2 * (py * wide - 2 * (to.1 * wide))) by (nonlinear_arith)
        requires
            x1 - x2 == -2 * wide,
            y2 == 2 * to.1,
    ;
    assert(to.0 * high - to.1 * wide == from.0 * high - from.1 * wide) by (nonlinear_arith)
        requires
            wide == to.0 - from.0,
            high == to.1 - from.1,
    ;
}

/// The bolt row by row: its upper part lies between two lines that lean to the
/// left, its lower part too, and its middle between the outer two of them. All in
/// half pixels, from the centers of the pixels.
pub proof fn the_bolt_lies_between_its_lines(x: int, y: int)
    ensures
        ({
            let (across, down) = (2 * x + 1, 2 * y + 1);
            let upper_left = 3 * across + 2 * down > 252;
            let upper_right = 10 * across + 3 * down < 836;
            let lower_left = 11 * across + 3 * down >= 876;
            let lower_right = 16 * across + 11 * down < 2044;
            in_bolt(x, y) <==> {
                ||| 6 <= y < 26 && upper_left && upper_right
                ||| 26 <= y < 36 && upper_left && lower_right
                ||| 36 <= y < 58 && lower_left && lower_right
            }
        }),
{
    lemma_edge((38, 6), (18, 36), x, y);
    lemma_edge((30, 36), (24, 58), x, y);
    lemma_edge((46, 26), (24, 58), x, y);
    lemma_edge((40, 6), (34, 26), x, y);
    let (across, down) = (2 * x + 1, 2 * y + 1);
    assert(across * 30 - down * -20 < 2 * (38 * 30 - 6 * -20) <==> 3 * across + 2 * down < 252);
    assert(across * 22 - down * -6 < 2 * (30 * 22 - 36 * -6) <==> 11 * across + 3 * down < 876);
    assert(across * 32 - down * -22 < 2 * (46 * 32 - 26 * -22) <==> 16 * across + 11 * down < 2044);
    assert(across * 20 - down * -6 < 2 * (40 * 20 - 6 * -6) <==> 10 * across + 3 * down < 836);
    let b = bolt();
    assert(b.len() == 7);
    assert(!crosses_odd(b, 0, x, y));
    assert(1int + 7 - 2 == 6 && 6int % 7 == 6);
    assert(crosses_odd(b, 1, x, y) == (crosses_odd(b, 0, x, y) != crosses(b[6], b[0], x, y)));
    assert(2int + 7 - 2 == 7 && 7int % 7 == 0);
    assert(crosses_odd(b, 2, x, y) == (crosses_odd(b, 1, x, y) != crosses(b[0], b[1], x, y)));
    assert(3int + 7 - 2 == 8 && 8int % 7 == 1);
    assert(crosses_odd(b, 3, x, y) == (crosses_odd(b, 2, x, y) != crosses(b[1], b[2], x, y)));
    assert(4int + 7 - 2 == 9 && 9int % 7 == 2);
    assert(crosses_odd(b, 4, x, y) == (crosses_odd(b, 3, x, y) != crosses(b[2], b[3], x, y)));
    assert(5int + 7 - 2 == 10 && 10int % 7 == 3);
    assert(crosses_odd(b, 5, x, y) == (crosses_odd(b, 4, x, y) != crosses(b[3], b[4], x, y)));
    assert(6int + 7 - 2 == 11 && 11int % 7 == 4);
    assert(crosses_odd(b, 6, x, y) == (crosses_odd(b, 5, x, y) != crosses(b[4], b[5], x, y)));
    assert(7int + 7 - 2 == 12 && 12int % 7 == 5);
    assert(crosses_odd(b, 7, x, y) == (crosses_odd(b, 6, x, y) != crosses(b[5], b[6], x, y)));
}

/// Each character of a level is drawn with its own bitmap, in its place.
pub proof fn every_character_has_its_place(level: Option<u8>, i: int)
    requires
        0 <= i < level_text(level).len(),
    ensures
        glyphs(level_text(level)).len() == level_text(level).len(),
        glyph_rows(level_text(level)[i]) == Some(glyphs(level_text(level))[i]),
{
    reveal_strlit("-");
    lemma_level_text(level);
    match level {
        Some(l) => {
            crate::text::decimals_read_back(
                if l > 100 {
                    100
                } else {
                    l as nat
                },
            );
        },
        None => {},
    }
}

} // verus!
