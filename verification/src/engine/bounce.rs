//! Bounce-angle model: maps the paddle-relative impact offset to an
//! outgoing angle with a concave power-law response, and maps angles to
//! outgoing velocities whose speed is exactly `BALL_SPEED`.
//!
//! The impact offset is quantized to 1024ths of the half paddle height and
//! the response angle to whole degrees. Each whole degree is mapped to the
//! integer point on the circle of radius `BALL_SPEED` (in subpixels)
//! nearest to that direction, so a bounce changes the ball's direction but
//! never its speed, exactly.

use vstd::prelude::*;
use vstd::arithmetic::div_mod::lemma_div_multiples_vanish;
use vstd::arithmetic::div_mod::lemma_multiply_divide_lt;

use crate::config::{BALL_SIZE, BALL_SPEED, HEIGHT, MAX_BOUNCE_ANGLE, PADDLE_HEIGHT, SUBPIXELS};

verus! {

/// The fourth power, used by the power-law response `|offset|^(3/4)`:
/// `deg = 65 * o^(3/4)` is characterized by fourth powers and cubes.
pub open spec fn pow4(x: int) -> int {
    x * x * x * x
}

/// 2 * (ball_center - paddle_center), the impact offset relative to the
/// paddle center, in 1024ths of the paddle height: magnitude part,
/// truncated toward zero. `ball_y` is in subpixels, `paddle_y` in pixels.
pub open spec fn impact_offset_mag(ball_y: int, paddle_y: int) -> int {
    let diff = ball_y + (BALL_SIZE / 2) * SUBPIXELS - (paddle_y * SUBPIXELS + (PADDLE_HEIGHT / 2)
        * SUBPIXELS);
    let mag = if diff >= 0 {
        diff
    } else {
        -diff
    };
    (2 * mag * 1024) / (PADDLE_HEIGHT * (SUBPIXELS as int))
}

/// Is the impact on (or below) the paddle center, so that the outgoing
/// angle is downward (nonnegative)?
pub open spec fn impact_is_down(ball_y: int, paddle_y: int) -> bool {
    ball_y + (BALL_SIZE / 2) * SUBPIXELS >= paddle_y * SUBPIXELS + (PADDLE_HEIGHT / 2) * SUBPIXELS
}

/// `deg` is the floor of `MAX_BOUNCE_ANGLE * (offset / 1024)^(3/4)`: the
/// fourth power of `deg / 65` brackets the cube of `offset / 1024`
/// (`17850625` is `65^4` and `0x40000000` is `1024^3`).
pub open spec fn is_abs_bounce_angle(offset: int, deg: int) -> bool {
    &&& 0 <= deg
    &&& pow4(deg) * 0x40000000 <= 17850625 * offset * offset * offset
    &&& 17850625 * offset * offset * offset < pow4(deg + 1) * 0x40000000
}

/// `deg` is the signed bounce angle, in whole degrees, for a ball at
/// subpixel height `ball_y` hitting the paddle at pixel height `paddle_y`.
pub open spec fn is_bounce_angle(ball_y: int, paddle_y: int, deg: int) -> bool {
    if impact_is_down(ball_y, paddle_y) {
        deg >= 0 && is_abs_bounce_angle(impact_offset_mag(ball_y, paddle_y), deg)
    } else {
        deg <= 0 && is_abs_bounce_angle(impact_offset_mag(ball_y, paddle_y), -deg)
    }
}

/// The fourth power, as an executable step of the angle search.
fn pow4_units(x: u64) -> (r: u64)
    requires
        x <= 100,
    ensures
        r as int == pow4(x as int),
        r <= 100000000,
{
    proof {
        assert((x as int) * (x as int) <= 10000 && (x as int) * (x as int) * (x as int)
            <= 1000000 && (x as int) * (x as int) * (x as int) * (x as int) <= 100000000)
            by (nonlinear_arith)
            requires
                0 <= x <= 100,
        ;
    }
    x * x * x * x
}

/// Calculate the ball's signed bounce angle off a paddle, in whole
/// degrees: the power-law response of the impact offset, floor-rounded.
pub fn calc_bounce_angle(ball_y: i64, paddle_y: usize) -> (deg: i64)
    requires
        paddle_y <= HEIGHT - PADDLE_HEIGHT,
        (paddle_y - BALL_SIZE) * (SUBPIXELS as int) < ball_y,
        ball_y < (paddle_y + PADDLE_HEIGHT) * (SUBPIXELS as int),
    ensures
        is_bounce_angle(ball_y as int, paddle_y as int, deg as int),
        -73 <= deg <= 73,
{
    let center_diff: i64 = ball_y + 7 * SUBPIXELS - (paddle_y as i64) * SUBPIXELS - 40
        * SUBPIXELS;
    let negative = center_diff < 0;
    let mag: u64 = if negative {
        (-center_diff) as u64
    } else {
        center_diff as u64
    };
    let o: u64 = (2 * mag * 1024) / (80 * (SUBPIXELS as u64));
    proof {
        assert(mag < 47 * (SUBPIXELS as u64));
        lemma_multiply_divide_lt(2 * (mag as int) * 1024, 80 * (SUBPIXELS as int), 1204);
        assert(2 * (mag as int) * 1024 < 80 * (SUBPIXELS as int) * 1204) by (nonlinear_arith)
            requires
                0 <= mag as int,
                (mag as int) < 47 * (SUBPIXELS as int),
                SUBPIXELS == 48612265,
        ;
    }
    assert(o * o <= 1447209 && o * o * o <= 1740992427) by {
        assert((o as int) * (o as int) <= 1447209 && (o as int) * (o as int) * (o as int)
            <= 1740992427) by (nonlinear_arith)
            requires
                0 <= o <= 1203,
        ;
    }
    let o3: u64 = o * o * o;
    let t: u64 = 17850625 * o3;
    let mut a: u64 = 0;
    while pow4_units(a + 1) * 0x40000000 <= t
        invariant
            a <= 73,
            pow4(a as int) * 0x40000000 <= t as int,
            t as int == 17850625 * (o3 as int),
            o3 as int == (o as int) * (o as int) * (o as int),
            t <= 31077802942216875u64,
        decreases 73 - a,
    {
        proof {
            if a == 73 {
                assert(pow4(74) * 0x40000000 == 32197840809754624int);
            }
        }
        a = a + 1;
    }
    let deg: i64 = if negative {
        -(a as i64)
    } else {
        a as i64
    };
    proof {
        assert(17850625 * (o3 as int) == 17850625 * (o as int) * (o as int) * (o as int))
            by (nonlinear_arith)
            requires
                o3 as int == (o as int) * (o as int) * (o as int),
        ;
        assert(o as int == impact_offset_mag(ball_y as int, paddle_y as int));
        assert(impact_is_down(ball_y as int, paddle_y as int) == !negative);
    }
    deg
}

/// The fourth power is strictly increasing on nonnegative integers.
pub proof fn lemma_pow4_increasing(a: int, b: int)
    requires
        0 <= a < b,
    ensures
        pow4(a) < pow4(b),
{
    assert(a * a * a * a < b * b * b * b) by (nonlinear_arith)
        requires
            0 <= a < b,
    ;
}

/// The bounce angle is a function of the impact: two angles for the same
/// impact are equal.
pub proof fn lemma_bounce_angle_unique(ball_y: int, paddle_y: int, d1: int, d2: int)
    requires
        is_bounce_angle(ball_y, paddle_y, d1),
        is_bounce_angle(ball_y, paddle_y, d2),
    ensures
        d1 == d2,
{
    let o = impact_offset_mag(ball_y, paddle_y);
    let m1 = if impact_is_down(ball_y, paddle_y) { d1 } else { -d1 };
    let m2 = if impact_is_down(ball_y, paddle_y) { d2 } else { -d2 };
    assert(is_abs_bounce_angle(o, m1) && is_abs_bounce_angle(o, m2));
    if m1 < m2 {
        if m1 + 1 < m2 {
            lemma_pow4_increasing(m1 + 1, m2);
        }
        assert(pow4(m1 + 1) <= pow4(m2));
        assert(pow4(m1 + 1) * 0x40000000 <= pow4(m2) * 0x40000000) by (nonlinear_arith)
            requires
                pow4(m1 + 1) <= pow4(m2),
        ;
    }
    if m2 < m1 {
        if m2 + 1 < m1 {
            lemma_pow4_increasing(m2 + 1, m1);
        }
        assert(pow4(m2 + 1) <= pow4(m1));
        assert(pow4(m2 + 1) * 0x40000000 <= pow4(m1) * 0x40000000) by (nonlinear_arith)
            requires
                pow4(m2 + 1) <= pow4(m1),
        ;
    }
}

/// A center hit leaves at angle zero.
pub proof fn lemma_bounce_angle_center(paddle_y: int, deg: int)
    requires
        is_bounce_angle(paddle_y * SUBPIXELS + 33 * SUBPIXELS, paddle_y, deg),
    ensures
        deg == 0,
{
    let by_ = paddle_y * SUBPIXELS + 33 * (SUBPIXELS as int);
    assert(impact_offset_mag(by_, paddle_y) == 0) by {
        assert(by_ + 7 * SUBPIXELS - (paddle_y * SUBPIXELS + 40 * SUBPIXELS) == 0);
    }
    if deg != 0 {
        let m = if deg >= 0 { deg } else { -deg };
        lemma_pow4_increasing(0, m);
        assert(pow4(m) * 0x40000000 > 0) by (nonlinear_arith)
            requires
                pow4(m) >= 1,
        ;
    }
}

/// A hit at the paddle's lower edge (ball center one half paddle height
/// below the paddle center) leaves at exactly `MAX_BOUNCE_ANGLE` degrees.
pub proof fn lemma_bounce_angle_edge_down(paddle_y: int, deg: int)
    requires
        is_bounce_angle(paddle_y * SUBPIXELS + 73 * SUBPIXELS, paddle_y, deg),
    ensures
        deg == MAX_BOUNCE_ANGLE,
{
    let by_ = paddle_y * SUBPIXELS + 73 * (SUBPIXELS as int);
    assert(by_ + 7 * SUBPIXELS - (paddle_y * SUBPIXELS + 40 * SUBPIXELS) == 40 * (
    SUBPIXELS as int));
    assert(2 * (40 * (SUBPIXELS as int)) * 1024 == (80 * (SUBPIXELS as int)) * 1024)
        by (nonlinear_arith);
    lemma_div_multiples_vanish(1024, 80 * (SUBPIXELS as int));
    assert(impact_offset_mag(by_, paddle_y) == 1024);
    assert(17850625 * 1024int * 1024 * 1024 == pow4(65) * 0x40000000);
    assert(is_abs_bounce_angle(1024, 65));
    lemma_bounce_angle_unique(by_, paddle_y, deg, 65);
}

/// A hit at the paddle's upper edge leaves at exactly `-MAX_BOUNCE_ANGLE`
/// degrees.
pub proof fn lemma_bounce_angle_edge_up(paddle_y: int, deg: int)
    requires
        is_bounce_angle(paddle_y * SUBPIXELS - 7 * SUBPIXELS, paddle_y, deg),
    ensures
        deg == -MAX_BOUNCE_ANGLE,
{
    let by_ = paddle_y * SUBPIXELS - 7 * (SUBPIXELS as int);
    assert(by_ + 7 * SUBPIXELS - (paddle_y * SUBPIXELS + 40 * SUBPIXELS) == -(40 * (
    SUBPIXELS as int)));
    assert(2 * (40 * (SUBPIXELS as int)) * 1024 == (80 * (SUBPIXELS as int)) * 1024)
        by (nonlinear_arith);
    lemma_div_multiples_vanish(1024, 80 * (SUBPIXELS as int));
    assert(impact_offset_mag(by_, paddle_y) == 1024);
    assert(17850625 * 1024int * 1024 * 1024 == pow4(65) * 0x40000000);
    assert(is_abs_bounce_angle(1024, 65));
    lemma_bounce_angle_unique(by_, paddle_y, deg, -65);
}

/// The outgoing direction for a whole angle of `deg` degrees: the integer
/// point on the circle of radius `BALL_SPEED` subpixels nearest to the
/// direction `(cos deg, sin deg)`.
pub open spec fn dir_for_angle(deg: int) -> (int, int) {
    if deg == 0 {
        (680571710, 0)
    } else if deg == 1 {
        (680474242, 11517744)
    } else if deg == 2 {
        (680177960, 23147250)
    } else if deg == 3 {
        (679615426, 36065568)
    } else if deg == 4 {
        (678959344, 46819458)
    } else if deg == 5 {
        (678019104, 58889278)
    } else if deg == 6 {
        (676849992, 71077006)
    } else if deg == 7 {
        (675368400, 83996290)
    } else if deg == 8 {
        (673938888, 94785166)
    } else if deg == 9 {
        (672220290, 106290800)
    } else if deg == 10 {
        (670356750, 117472040)
    } else if deg == 11 {
        (667847040, 130989250)
    } else if deg == 12 {
        (665705040, 141473150)
    } else if deg == 13 {
        (663189618, 152831224)
    } else if deg == 14 {
        (660468648, 164192014)
    } else if deg == 15 {
        (657443528, 175914354)
    } else if deg == 16 {
        (653969778, 188418104)
    } else if deg == 17 {
        (650918800, 198702210)
    } else if deg == 18 {
        (647462816, 209689662)
    } else if deg == 19 {
        (643784050, 220725960)
    } else if deg == 20 {
        (639256744, 233513742)
    } else if deg == 21 {
        (635440960, 243706050)
    } else if deg == 22 {
        (630926450, 255165960)
    } else if deg == 23 {
        (626472784, 265912962)
    } else if deg == 24 {
        (620814194, 278868408)
    } else if deg == 25 {
        (616632702, 287996464)
    } else if deg == 26 {
        (611619960, 298494350)
    } else if deg == 27 {
        (606514062, 308737016)
    } else if deg == 28 {
        (600504450, 320269040)
    } else if deg == 29 {
        (594998334, 330385888)
    } else if deg == 30 {
        (589264200, 340507790)
    } else if deg == 31 {
        (583332750, 350572040)
    } else if deg == 32 {
        (577049088, 360821566)
    } else if deg == 33 {
        (570365040, 371297150)
    } else if deg == 34 {
        (564086978, 380767296)
    } else if deg == 35 {
        (557511486, 390331648)
    } else if deg == 36 {
        (550422096, 400266622)
    } else if deg == 37 {
        (543132408, 410103694)
    } else if deg == 38 {
        (536210290, 419113800)
    } else if deg == 39 {
        (529439806, 427634592)
    } else if deg == 40 {
        (520811200, 438102210)
    } else if deg == 41 {
        (513246734, 446940312)
    } else if deg == 42 {
        (505499624, 455684082)
    } else if deg == 43 {
        (497715400, 464173710)
    } else if deg == 44 {
        (489708674, 472613232)
    } else if deg == 45 {
        (479786104, 482683278)
    } else if deg == 46 {
        (472613232, 489708674)
    } else if deg == 47 {
        (464173710, 497715400)
    } else if deg == 48 {
        (455684082, 505499624)
    } else if deg == 49 {
        (446940312, 513246734)
    } else if deg == 50 {
        (438102210, 520811200)
    } else if deg == 51 {
        (427634592, 529439806)
    } else if deg == 52 {
        (419113800, 536210290)
    } else if deg == 53 {
        (410103694, 543132408)
    } else if deg == 54 {
        (400266622, 550422096)
    } else if deg == 55 {
        (390331648, 557511486)
    } else if deg == 56 {
        (380767296, 564086978)
    } else if deg == 57 {
        (371297150, 570365040)
    } else if deg == 58 {
        (360821566, 577049088)
    } else if deg == 59 {
        (350572040, 583332750)
    } else if deg == 60 {
        (340507790, 589264200)
    } else if deg == 61 {
        (330385888, 594998334)
    } else if deg == 62 {
        (320269040, 600504450)
    } else if deg == 63 {
        (308737016, 606514062)
    } else if deg == 64 {
        (298494350, 611619960)
    } else if deg == 65 {
        (287996464, 616632702)
    } else if deg == 66 {
        (278868408, 620814194)
    } else if deg == 67 {
        (265912962, 626472784)
    } else if deg == 68 {
        (255165960, 630926450)
    } else if deg == 69 {
        (243706050, 635440960)
    } else if deg == 70 {
        (233513742, 639256744)
    } else if deg == 71 {
        (220725960, 643784050)
    } else if deg == 72 {
        (209689662, 647462816)
    } else if deg == 73 {
        (198702210, 650918800)
    } else if deg == 74 {
        (188418104, 653969778)
    } else {
        (0, 0)
    }
}

/// Executable direction lookup. The returned velocity components lie
/// exactly on the circle of radius `BALL_SPEED`: a bounce never changes
/// the ball's speed.
pub fn velocity_for_angle(deg: i64) -> (v: (i64, i64))
    requires
        0 <= deg <= 74,
    ensures
        (v.0 as int, v.1 as int) == dir_for_angle(deg as int),
        v.0 * v.0 + v.1 * v.1 == BALL_SPEED * BALL_SPEED,
        0 < v.0 <= BALL_SPEED,
        0 <= v.1 < BALL_SPEED,
        deg == 0 ==> v.1 == 0,
{
    match deg {
        0 => (680571710, 0),
        1 => (680474242, 11517744),
        2 => (680177960, 23147250),
        3 => (679615426, 36065568),
        4 => (678959344, 46819458),
        5 => (678019104, 58889278),
        6 => (676849992, 71077006),
        7 => (675368400, 83996290),
        8 => (673938888, 94785166),
        9 => (672220290, 106290800),
        10 => (670356750, 117472040),
        11 => (667847040, 130989250),
        12 => (665705040, 141473150),
        13 => (663189618, 152831224),
        14 => (660468648, 164192014),
        15 => (657443528, 175914354),
        16 => (653969778, 188418104),
        17 => (650918800, 198702210),
        18 => (647462816, 209689662),
        19 => (643784050, 220725960),
        20 => (639256744, 233513742),
        21 => (635440960, 243706050),
        22 => (630926450, 255165960),
        23 => (626472784, 265912962),
        24 => (620814194, 278868408),
        25 => (616632702, 287996464),
        26 => (611619960, 298494350),
        27 => (606514062, 308737016),
        28 => (600504450, 320269040),
        29 => (594998334, 330385888),
        30 => (589264200, 340507790),
        31 => (583332750, 350572040),
        32 => (577049088, 360821566),
        33 => (570365040, 371297150),
        34 => (564086978, 380767296),
        35 => (557511486, 390331648),
        36 => (550422096, 400266622),
        37 => (543132408, 410103694),
        38 => (536210290, 419113800),
        39 => (529439806, 427634592),
        40 => (520811200, 438102210),
        41 => (513246734, 446940312),
        42 => (505499624, 455684082),
        43 => (497715400, 464173710),
        44 => (489708674, 472613232),
        45 => (479786104, 482683278),
        46 => (472613232, 489708674),
        47 => (464173710, 497715400),
        48 => (455684082, 505499624),
        49 => (446940312, 513246734),
        50 => (438102210, 520811200),
        51 => (427634592, 529439806),
        52 => (419113800, 536210290),
        53 => (410103694, 543132408),
        54 => (400266622, 550422096),
        55 => (390331648, 557511486),
        56 => (380767296, 564086978),
        57 => (371297150, 570365040),
        58 => (360821566, 577049088),
        59 => (350572040, 583332750),
        60 => (340507790, 589264200),
        61 => (330385888, 594998334),
        62 => (320269040, 600504450),
        63 => (308737016, 606514062),
        64 => (298494350, 611619960),
        65 => (287996464, 616632702),
        66 => (278868408, 620814194),
        67 => (265912962, 626472784),
        68 => (255165960, 630926450),
        69 => (243706050, 635440960),
        70 => (233513742, 639256744),
        71 => (220725960, 643784050),
        72 => (209689662, 647462816),
        73 => (198702210, 650918800),
        74 => (188418104, 653969778),
        _ => (BALL_SPEED, 0),
    }
}

} // verus!
