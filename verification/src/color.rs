//! From hue, saturation and value to red, green and blue.

use vstd::prelude::*;

verus! {

/// How many parts make up one: saturation and value are counted in
/// millionths of full intensity, and a hue in millionths of a sector.
pub const UNIT: i32 = 1_000_000;

/// How many parts make up a full turn of the hue: six sectors of a million
/// each, so that every sector boundary is a whole number.
pub const TURN: i64 = 6_000_000;

/// A colour for the preview, eight bits per channel.
#[derive(Clone, Copy, Debug, PartialEq, Eq)]
pub struct Pixel {
    pub r: u8,
    pub g: u8,
    pub b: u8,
}

/// A colour as the operator chose it. `h` counts millionths of a sector, six
/// million to the full turn; `s` and `v` count millionths of full intensity.
/// No range is imposed beyond what the fields hold.
#[derive(Clone, Copy, Debug, PartialEq, Eq)]
pub struct ColorHsv {
    pub h: i64,
    pub s: i32,
    pub v: i32,
}

/// `UNIT` as a mathematical integer.
pub open spec fn unit() -> int {
    1_000_000
}

/// `TURN` as a mathematical integer.
pub open spec fn turn() -> int {
    6_000_000
}

/// `unit()` squared: the denominator of a product of two numbers in
/// millionths.
pub open spec fn square() -> int {
    1_000_000_000_000
}

/// `unit()` cubed: the denominator of a product of three.
pub open spec fn cube() -> int {
    1_000_000_000_000_000_000
}

/// The sector in which hue `h` lies, after `h` is wrapped into one turn:
/// always one of 0 to 5.
pub open spec fn sector(h: int) -> int {
    (h % turn()) / unit()
}

/// How far into its sector hue `h` lies, in millionths of the sector: the hue
/// in sectors, less its floor.
pub open spec fn offset(h: int) -> int {
    h % unit()
}

/// The channel value of the fraction `num / den` of full intensity, for
/// `den > 0`: scaled by 255, truncated toward zero, and wrapped into eight
/// bits.
pub open spec fn channel(num: int, den: int) -> int {
    let scaled = 255 * num;
    let whole = if scaled >= 0 {
        scaled / den
    } else {
        -((-scaled) / den)
    };
    whole % 256
}

/// Numerator over `square()` of `v * (1 - s)`: the level of a channel that
/// the hue leaves out.
pub open spec fn low_num(s: int, v: int) -> int {
    v * (unit() - s)
}

/// Numerator over `cube()` of `v * (1 - s * f)`, `f` being the offset of `h`:
/// the level of the channel that fades as the hue crosses its sector.
pub open spec fn falling_num(h: int, s: int, v: int) -> int {
    v * (square() - s * offset(h))
}

/// Numerator over `cube()` of `v * (1 - s * (1 - f))`, `f` being the offset
/// of `h`: the level of the channel that grows as the hue crosses its sector.
pub open spec fn rising_num(h: int, s: int, v: int) -> int {
    v * (square() - s * (unit() - offset(h)))
}

/// Which of the four channel values goes to red, green and blue in each
/// sector; black outside the six sectors.
pub open spec fn assign(i: int, full: u8, low: u8, falling: u8, rising: u8) -> Pixel {
    if i == 0 {
        Pixel { r: full, g: rising, b: low }
    } else if i == 1 {
        Pixel { r: falling, g: full, b: low }
    } else if i == 2 {
        Pixel { r: low, g: full, b: rising }
    } else if i == 3 {
        Pixel { r: low, g: falling, b: full }
    } else if i == 4 {
        Pixel { r: rising, g: low, b: full }
    } else if i == 5 {
        Pixel { r: full, g: low, b: falling }
    } else {
        Pixel { r: 0, g: 0, b: 0 }
    }
}

/// The preview colour of hue `h`, in millionths of a sector, and of
/// saturation `s` and value `v`, in millionths; each of any size.
pub open spec fn rgb_spec(h: int, s: int, v: int) -> Pixel {
    assign(
        sector(h),
        channel(v, unit()) as u8,
        channel(low_num(s, v), square()) as u8,
        channel(falling_num(h, s, v), cube()) as u8,
        channel(rising_num(h, s, v), cube()) as u8,
    )
}

/// The preview colour of `c`.
pub open spec fn rgb_of(c: ColorHsv) -> Pixel {
    rgb_spec(c.h as int, c.s as int, c.v as int)
}

/// The channel value of the plain level `v`, in millionths: what every
/// channel shows where nothing colours it.
pub open spec fn gray_level(v: int) -> int {
    channel(v, unit())
}

/// Every hue lies in one of the six sectors, so that no colour falls to the
/// black of the table's last row.
pub proof fn lemma_sector_in_range(h: int)
    ensures
        0 <= sector(h) <= 5,
{
}

/// Every channel value fits in eight bits.
pub proof fn lemma_channel_in_range(num: int, den: int)
    ensures
        0 <= channel(num, den) <= 255,
{
}

/// The hue wraps with period one: a full turn more gives the same colour.
pub proof fn lemma_hue_period(h: int, s: int, v: int)
    ensures
        rgb_spec(h + turn(), s, v) == rgb_spec(h, s, v),
{
    vstd::arithmetic::div_mod::lemma_mod_multiples_vanish(1, h, turn());
    vstd::arithmetic::div_mod::lemma_mod_multiples_vanish(6, h, unit());
    assert(h + turn() == turn() * 1 + h);
    assert(h + turn() == unit() * 6 + h);
    assert(sector(h + turn()) == sector(h));
    assert(offset(h + turn()) == offset(h));
}

/// At full saturation and value the six sector boundaries show red, yellow,
/// green, cyan, blue and magenta, each channel fully on or fully off.
pub proof fn lemma_sector_boundaries()
    ensures
        rgb_spec(0, unit(), unit()) == (Pixel { r: 255, g: 0, b: 0 }),
        rgb_spec(unit(), unit(), unit()) == (Pixel { r: 255, g: 255, b: 0 }),
        rgb_spec(2 * unit(), unit(), unit()) == (Pixel { r: 0, g: 255, b: 0 }),
        rgb_spec(3 * unit(), unit(), unit()) == (Pixel { r: 0, g: 255, b: 255 }),
        rgb_spec(4 * unit(), unit(), unit()) == (Pixel { r: 0, g: 0, b: 255 }),
        rgb_spec(5 * unit(), unit(), unit()) == (Pixel { r: 255, g: 0, b: 255 }),
{
    assert(channel(unit(), unit()) == 255);
    assert(low_num(unit(), unit()) == 0) by (nonlinear_arith);
    assert(channel(0, square()) == 0);
    assert(channel(0, cube()) == 0);
    assert(channel(cube(), cube()) == 255);
    assert forall|k: int| 0 <= k <= 5 implies #[trigger] offset(k * unit()) == 0 && sector(
        k * unit(),
    ) == k by {
        assert(k == 0 || k == 1 || k == 2 || k == 3 || k == 4 || k == 5);
    }
    assert forall|h: int| offset(h) == 0 implies #[trigger] falling_num(h, unit(), unit())
        == cube() && #[trigger] rising_num(h, unit(), unit()) == 0 by {
        assert(unit() * (square() - unit() * 0) == cube()) by (nonlinear_arith);
        assert(unit() * (square() - unit() * (unit() - 0)) == 0) by (nonlinear_arith);
    }
    assert(offset(0 * unit()) == 0 && sector(0 * unit()) == 0);
    assert(offset(1 * unit()) == 0 && sector(1 * unit()) == 1);
    assert(offset(2 * unit()) == 0 && sector(2 * unit()) == 2);
    assert(offset(3 * unit()) == 0 && sector(3 * unit()) == 3);
    assert(offset(4 * unit()) == 0 && sector(4 * unit()) == 4);
    assert(offset(5 * unit()) == 0 && sector(5 * unit()) == 5);
}

/// With no saturation the colour is gray, whatever the hue: each channel is
/// the value scaled by 255 and truncated.
pub proof fn lemma_gray_axis(h: int, v: int)
    ensures
        rgb_spec(h, 0, v).r == gray_level(v),
        rgb_spec(h, 0, v).g == gray_level(v),
        rgb_spec(h, 0, v).b == gray_level(v),
{
    lemma_common_factor(v, unit());
    lemma_common_factor(v, square());
    lemma_sector_in_range(h);
}

/// A fraction keeps its channel value when numerator and denominator are
/// multiplied by the same positive number.
proof fn lemma_common_factor(v: int, k: int)
    requires
        k > 0,
    ensures
        channel(v * k, unit() * k) == channel(v, unit()),
{
    let a: int = if v >= 0 {
        255 * v
    } else {
        -(255 * v)
    };
    vstd::arithmetic::div_mod::lemma_div_multiples_vanish_quotient(k, a, unit());
    assert(k * unit() == unit() * k) by (nonlinear_arith);
    assert(k * a == if v >= 0 {
        255 * (v * k)
    } else {
        -(255 * (v * k))
    }) by (nonlinear_arith)
        requires
            a == if v >= 0 {
                255 * v
            } else {
                -(255 * v)
            },
    ;
    assert(v >= 0 ==> 255 * (v * k) >= 0) by (nonlinear_arith)
        requires
            k > 0,
    ;
    assert(v < 0 ==> 255 * (v * k) < 0) by (nonlinear_arith)
        requires
            k > 0,
    ;
}

/// A product is at most the product of its factors' bounds, either way.
proof fn lemma_product_bound(a: int, b: int, ba: int, bb: int)
    requires
        -ba <= a <= ba,
        -bb <= b <= bb,
    ensures
        -(ba * bb) <= a * b <= ba * bb,
{
    assert(-(ba * bb) <= a * b <= ba * bb) by (nonlinear_arith)
        requires
            -ba <= a <= ba,
            -bb <= b <= bb,
    ;
}

/// Picks red, green and blue for sector `i` from the four channel values.
pub fn assign_channels(i: u8, full: u8, low: u8, falling: u8, rising: u8) -> (out: Pixel)
    ensures
        out == assign(i as int, full, low, falling, rising),
{
    match i {
        0 => Pixel { r: full, g: rising, b: low },
        1 => Pixel { r: falling, g: full, b: low },
        2 => Pixel { r: low, g: full, b: rising },
        3 => Pixel { r: low, g: falling, b: full },
        4 => Pixel { r: rising, g: low, b: full },
        5 => Pixel { r: full, g: low, b: falling },
        _ => Pixel { r: 0, g: 0, b: 0 },
    }
}

/// Scales the fraction `num / den` to a channel value.
fn level(num: i128, den: u128) -> (out: u8)
    requires
        -10_000_000_000_000_000_000_000_000 <= num <= 10_000_000_000_000_000_000_000_000,
        den > 0,
    ensures
        out == channel(num as int, den as int),
{
    let negative = num < 0;
    let size: u128 = if negative {
        (0 - num) as u128
    } else {
        num as u128
    };
    let whole: u128 = (255 * size) / den;
    let low: u128 = whole % 256;
    if negative && low != 0 {
        (256 - low) as u8
    } else {
        low as u8
    }
}

/// The sector and the offset of hue `h`.
fn hue_parts(h: i64) -> (out: (u8, u32))
    ensures
        out.0 == sector(h as int),
        out.1 == offset(h as int),
        out.1 < 1_000_000,
{
    // A whole number of turns more: the same hue, and never negative.
    let shifted: u128 = (h as i128 + 9_223_372_036_860_000_000) as u128;
    proof {
        vstd::arithmetic::div_mod::lemma_mod_multiples_vanish(
            1_537_228_672_810,
            h as int,
            6_000_000,
        );
        vstd::arithmetic::div_mod::lemma_mod_multiples_vanish(
            9_223_372_036_860,
            h as int,
            1_000_000,
        );
        assert(shifted == 6_000_000 * 1_537_228_672_810 + h);
        assert(shifted == 1_000_000 * 9_223_372_036_860 + h);
    }
    let wrapped: u128 = shifted % 6_000_000;
    let i: u8 = (wrapped / 1_000_000) as u8;
    let f: u32 = (shifted % 1_000_000) as u32;
    (i, f)
}

/// The channel value of `v * (1 - s)`.
fn low_level(s: i32, v: i32) -> (out: u8)
    ensures
        out == channel(low_num(s as int, v as int), square()),
{
    let rest: i128 = 1_000_000 - s as i128;
    proof {
        lemma_product_bound(v as int, rest as int, 2_147_483_648, 2_148_483_648);
    }
    level(v as i128 * rest, 1_000_000_000_000)
}

/// The channel value of `v * (1 - s * g)`, where `g` is a fraction of a
/// sector in millionths.
fn shaded_level(s: i32, v: i32, g: u32) -> (out: u8)
    requires
        g <= 1_000_000,
    ensures
        out == channel(v * (square() - s * g), cube()),
{
    proof {
        lemma_product_bound(s as int, g as int, 2_147_483_648, 1_000_000);
    }
    let rest: i128 = 1_000_000_000_000 - s as i128 * g as i128;
    proof {
        lemma_product_bound(v as int, rest as int, 2_147_483_648, 2_148_483_648_000_000);
    }
    level(v as i128 * rest, 1_000_000_000_000_000_000)
}

/// Converts a colour to its preview: the hue picks one of six sectors, the
/// sector picks which of the four intermediate values each channel gets, and
/// each of them is scaled by 255, truncated and wrapped into eight bits.
pub fn hsv_2_rgb(col: &ColorHsv) -> (out: Pixel)
    ensures
        out == rgb_of(*col),
{
    let (i, f) = hue_parts(col.h);
    let full = level(col.v as i128, 1_000_000);
    let low = low_level(col.s, col.v);
    let falling = shaded_level(col.s, col.v, f);
    let rising = shaded_level(col.s, col.v, 1_000_000 - f);
    assign_channels(i, full, low, falling, rising)
}

} // verus!
