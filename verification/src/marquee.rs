//! The scrolling marquee.
//!
//! The marquee always draws upright glyphs. On horizontal mounts the train of
//! glyphs runs along the 30-wide axis, on vertical mounts along the 30-tall
//! one. It is drawn across the virtual axis, so that whatever lands on a gap
//! between panels vanishes and re-emerges on the next panel, and is then turned
//! by the same rotation that streamed frames go through.

use vstd::prelude::*;

use crate::font;
use crate::font::{glyph_lights, GLYPH_COLUMNS, GLYPH_ROWS};
use crate::frame;
use crate::frame::{apply_orientation, Image};
use crate::panels;
use crate::panels::{clamp_direction, orientation_is_vertical};
use crate::panels::{virtual_major, virtual_to_physical_major};
use crate::panels::{DIR_BOTTOM_TO_TOP, DIR_LEFT_TO_RIGHT, DIR_RIGHT_TO_LEFT, DIR_TOP_TO_BOTTOM};
use crate::panels::{MAJOR, MINOR, PIXELS};
use crate::panels::{ORIENT_0, ORIENT_180, ORIENT_270, ORIENT_90};
use crate::text;
use crate::text::truncate_chars;

verus! {

/// Maximum marquee text length, in characters. Enforced wherever text enters,
/// so that a crafted request cannot grow the string without bound.
pub const MARQUEE_TEXT_MAX: usize = 64;

/// Steps from one glyph to the next on a vertical mount: seven rows and a gap.
pub const PITCH_VERTICAL: usize = 8;

/// Steps from one glyph to the next on a horizontal mount: five columns and a
/// gap.
pub const PITCH_HORIZONTAL: usize = 6;

/// Brightness of a lit marquee pixel.
pub const MARQUEE_LEVEL: u8 = 100;

/// The bytes of the text that is drawn. The font has a glyph per byte, so the
/// train is as long as the text has bytes.
pub open spec fn train(text: Seq<char>) -> Seq<u8> {
    vstd::utf8::encode_utf8(text::truncated(text, MARQUEE_TEXT_MAX as int))
}

/// Steps along the scroll axis taken up by a train of `glyphs` glyphs.
pub open spec fn train_len(glyphs: int, vertical: bool) -> int {
    if vertical {
        glyphs * PITCH_VERTICAL
    } else {
        glyphs * PITCH_HORIZONTAL
    }
}

/// Steps after which the train is back where it started.
pub open spec fn span(text: Seq<char>, orientation: u8) -> int {
    train_len(train(text).len() as int, panels::is_vertical(orientation))
}

/// The directions in which the train moves towards higher positions: rightwards
/// and downwards.
pub open spec fn runs_backwards(orientation: u8, direction: u8) -> bool {
    if panels::is_vertical(orientation) {
        panels::clamped_direction(orientation, direction) == DIR_TOP_TO_BOTTOM
    } else {
        panels::clamped_direction(orientation, direction) == DIR_LEFT_TO_RIGHT
    }
}

/// The position on a train of length `total` that stands at the start of the
/// virtual axis after `offset` steps.
pub open spec fn train_start(total: int, offset: int, backwards: bool) -> int {
    if backwards {
        (total - offset % total) % total
    } else {
        offset % total
    }
}

/// Whether the train lights the pixel at position `pos` along it and `minor`
/// across it. Glyphs start one row down, or two columns in.
pub open spec fn train_pixel(bytes: Seq<u8>, vertical: bool, pos: int, minor: int) -> bool {
    if vertical {
        font::glyph_pixel(
            bytes[pos / PITCH_VERTICAL as int],
            minor - 2,
            pos % PITCH_VERTICAL as int,
        )
    } else {
        font::glyph_pixel(
            bytes[pos / PITCH_HORIZONTAL as int],
            pos % PITCH_HORIZONTAL as int,
            minor - 1,
        )
    }
}

/// Place of a pixel along the major axis, in an image not yet rotated.
pub open spec fn major_of(vertical: bool, i: int) -> int {
    if vertical {
        i / MINOR as int
    } else {
        i % MAJOR as int
    }
}

/// Place of a pixel along the minor axis, in an image not yet rotated.
pub open spec fn minor_of(vertical: bool, i: int) -> int {
    if vertical {
        i % MINOR as int
    } else {
        i / MAJOR as int
    }
}

/// The train as seen through the panels, not yet rotated.
pub open spec fn train_image(bytes: Seq<u8>, start: int, vertical: bool, margin: u8) -> Seq<u8> {
    let total = train_len(bytes.len() as int, vertical);
    Seq::new(
        PIXELS as nat,
        |i: int|
            if train_pixel(
                bytes,
                vertical,
                (panels::physical_to_virtual(major_of(vertical, i), margin as int) + start) % total,
                minor_of(vertical, i),
            ) {
                MARQUEE_LEVEL
            } else {
                0
            },
    )
}

/// What the marquee shows after `offset` steps: nothing without a text, else
/// the part of the train that is at the panels, rotated to the mounting.
pub open spec fn marquee_image(
    text: Seq<char>,
    offset: int,
    orientation: u8,
    direction: u8,
    margin: u8,
) -> Seq<u8> {
    if train(text).len() == 0 {
        Seq::new(PIXELS as nat, |i: int| 0u8)
    } else {
        frame::oriented(
            train_image(
                train(text),
                train_start(
                    span(text, orientation),
                    offset,
                    runs_backwards(orientation, direction),
                ),
                panels::is_vertical(orientation),
                margin,
            ),
            orientation,
        )
    }
}

/// A character takes no more than four bytes.
proof fn encoding_is_bounded(s: Seq<char>)
    ensures
        vstd::utf8::encode_utf8(s).len() <= 4 * s.len(),
    decreases s.len(),
{
    if s.len() > 0 {
        encoding_is_bounded(s.drop_first());
    }
}

/// However long a text is, its train is bounded.
pub proof fn train_is_bounded(text: Seq<char>)
    ensures
        train(text).len() <= 256,
{
    encoding_is_bounded(text::truncated(text, MARQUEE_TEXT_MAX as int));
}

fn train_steps(glyphs: usize, vertical: bool) -> (steps: usize)
    requires
        glyphs <= 256,
    ensures
        steps == train_len(glyphs as int, vertical),
{
    if vertical {
        glyphs * PITCH_VERTICAL
    } else {
        glyphs * PITCH_HORIZONTAL
    }
}

/// Total scroll span (in steps) for the current text and orientation. One step
/// is one column (horizontal) or one row (vertical) of travel.
pub fn marquee_span(text: &str, orientation: u8) -> (steps: usize)
    ensures
        steps == span(text@, orientation),
        steps == vstd::utf8::encode_utf8(
            if text@.len() <= 64 {
                text@
            } else {
                text@.take(64)
            },
        ).len() * (if orientation == 1 || orientation == 3 {
            8int
        } else {
            6int
        }),
{
    proof {
        train_is_bounded(text@);
        the_span_is_a_pitch_for_every_byte(text@, orientation);
    }
    let shown = truncate_chars(text, MARQUEE_TEXT_MAX);
    let len: usize = shown.as_str().as_bytes().len();
    assert(len == train(text@).len());
    train_steps(len, orientation_is_vertical(orientation))
}

fn train_lights(bytes: &[u8], vertical: bool, pos: usize, minor: usize) -> (lit: bool)
    requires
        pos < train_len(bytes@.len() as int, vertical),
    ensures
        lit == train_pixel(bytes@, vertical, pos as int, minor as int),
{
    if vertical {
        let row: usize = pos % PITCH_VERTICAL;
        if row >= GLYPH_ROWS || minor < 2 || minor >= 2 + GLYPH_COLUMNS {
            return false;
        }
        glyph_lights(bytes[pos / PITCH_VERTICAL], minor - 2, row)
    } else {
        let column: usize = pos % PITCH_HORIZONTAL;
        if column >= GLYPH_COLUMNS || minor < 1 || minor >= 1 + GLYPH_ROWS {
            return false;
        }
        glyph_lights(bytes[pos / PITCH_HORIZONTAL], column, minor - 1)
    }
}

fn draw_train(bytes: &[u8], start: usize, vertical: bool, margin: u8) -> (phys: Image)
    requires
        0 < bytes@.len() <= 256,
        start < train_len(bytes@.len() as int, vertical),
    ensures
        phys@ == train_image(bytes@, start as int, vertical, margin),
{
    let vmajor: usize = virtual_major(margin);
    let mut phys: Image = [0u8; 300];
    let total: usize = train_steps(bytes.len(), vertical);
    let ghost want = train_image(bytes@, start as int, vertical, margin);
    let mut v: usize = 0;
    while v < vmajor
        invariant
            v <= vmajor,
            vmajor == panels::virtual_len(margin as int),
            0 < bytes@.len() <= 256,
            total == train_len(bytes@.len() as int, vertical),
            start < total,
            want == train_image(bytes@, start as int, vertical, margin),
            forall|i: int|
                0 <= i < PIXELS && panels::physical_to_virtual(
                    major_of(vertical, i),
                    margin as int,
                ) < v ==> #[trigger] phys@[i] == want[i],
            forall|i: int|
                0 <= i < PIXELS && panels::physical_to_virtual(
                    major_of(vertical, i),
                    margin as int,
                ) >= v ==> #[trigger] phys@[i] == 0,
        decreases vmajor - v,
    {
        let ghost before = phys@;
        if let Some(p) = virtual_to_physical_major(v, margin) {
            proof {
                panels::axis_maps_agree(v as int, p as int, margin);
            }
            let pos: usize = (v + start) % total;
            let mut minor: usize = 0;
            while minor < MINOR
                invariant
                    minor <= MINOR,
                    p < MAJOR,
                    pos == (v + start) as int % total as int,
                    pos < total,
                    total == train_len(bytes@.len() as int, vertical),
                    panels::physical_to_virtual(p as int, margin as int) == v,
                    want == train_image(bytes@, start as int, vertical, margin),
                    forall|i: int|
                        0 <= i < PIXELS && major_of(vertical, i) != p ==> #[trigger] phys@[i]
                            == before[i],
                    forall|i: int|
                        0 <= i < PIXELS && major_of(vertical, i) == p && minor_of(vertical, i)
                            < minor ==> #[trigger] phys@[i] == want[i],
                    forall|i: int|
                        0 <= i < PIXELS && major_of(vertical, i) == p && minor_of(vertical, i)
                            >= minor ==> #[trigger] phys@[i] == 0,
                decreases MINOR - minor,
            {
                let at: usize = if vertical {
                    p * MINOR + minor
                } else {
                    minor * MAJOR + p
                };
                assert(major_of(vertical, at as int) == p && minor_of(vertical, at as int) == minor);
                if train_lights(bytes, vertical, pos, minor) {
                    phys[at] = MARQUEE_LEVEL;
                }
                minor = minor + 1;
            }
        }
        proof {
            assert forall|i: int|
                0 <= i < PIXELS && panels::physical_to_virtual(
                    major_of(vertical, i),
                    margin as int,
                ) < v + 1 implies #[trigger] phys@[i] == want[i] by {
                panels::axis_maps_agree(v as int, major_of(vertical, i), margin);
            }
        }
        v = v + 1;
    }
    proof {
        assert forall|i: int| 0 <= i < PIXELS implies #[trigger] phys@[i] == want[i] by {
            let p = major_of(vertical, i);
            panels::axis_maps_agree(panels::physical_to_virtual(p, margin as int), p, margin);
        }
        assert(phys@ =~= want);
    }
    phys
}

/// Draw the marquee as it looks after `offset` steps.
pub fn render_marquee(
    text: &str,
    offset: usize,
    orientation: u8,
    direction: u8,
    margin: u8,
    img: &mut Image,
)
    ensures
        final(img)@ == marquee_image(text@, offset as int, orientation, direction, margin),
        forall|along: int, across: int|
            0 <= along < 30 && 0 <= across < 10 ==> #[trigger] reads_at(
                final(img)@,
                text@,
                offset as int,
                orientation,
                direction,
                margin,
                along,
                across,
            ),
{
    let ghost want = marquee_image(text@, offset as int, orientation, direction, margin);
    proof {
        train_is_bounded(text@);
        assert forall|along: int, across: int|
            0 <= along < 30 && 0 <= across < 10 implies #[trigger] reads_at(
            want,
            text@,
            offset as int,
            orientation,
            direction,
            margin,
            along,
            across,
        ) by {
            the_panels_show_the_text(
                text@,
                offset as int,
                orientation,
                direction,
                margin,
                along,
                across,
            );
        }
    }
    let shown = truncate_chars(text, MARQUEE_TEXT_MAX);
    let bytes = shown.as_str().as_bytes();
    if bytes.len() == 0 {
        *img = [0u8; 300];
        assert(img@ =~= want);
        return;
    }
    let direction: u8 = clamp_direction(orientation, direction);
    let vertical: bool = orientation_is_vertical(orientation);
    let total: usize = train_steps(bytes.len(), vertical);
    let backwards: bool = if vertical {
        direction == DIR_TOP_TO_BOTTOM
    } else {
        direction == DIR_LEFT_TO_RIGHT
    };
    let start: usize = if backwards {
        (total - offset % total) % total
    } else {
        offset % total
    };
    *img = draw_train(bytes, start, vertical, margin);
    apply_orientation(img, orientation);
    assert(img@ == want);
}

/// After a whole span the marquee shows the same again.
pub proof fn marquee_is_periodic(
    text: Seq<char>,
    offset: int,
    orientation: u8,
    direction: u8,
    margin: u8,
)
    requires
        0 <= offset,
    ensures
        marquee_image(text, offset + span(text, orientation), orientation, direction, margin)
            == marquee_image(text, offset, orientation, direction, margin),
{
    let total = span(text, orientation);
    if train(text).len() > 0 {
        vstd::arithmetic::div_mod::lemma_mod_add_multiples_vanish(offset, total);
    }
}

/// A train that runs backwards stands where it would stand if it had been wound
/// back by as many steps.
proof fn backwards_is_wound_back(total: int, offset: int)
    requires
        0 < total,
        0 <= offset <= total,
    ensures
        train_start(total, offset, true) == train_start(total, total - offset, false),
        train_start(total, offset, false) == train_start(total, total - offset, true),
{
    vstd::arithmetic::div_mod::lemma_mod_self_0(total);
    vstd::arithmetic::div_mod::lemma_small_mod(0, total as nat);
    if 0 < offset < total {
        vstd::arithmetic::div_mod::lemma_small_mod(offset as nat, total as nat);
        vstd::arithmetic::div_mod::lemma_small_mod((total - offset) as nat, total as nat);
    }
}

/// A direction along the wrong axis counts as the default one of the right axis.
pub proof fn a_stray_direction_is_clamped(
    text: Seq<char>,
    offset: int,
    orientation: u8,
    direction: u8,
    margin: u8,
)
    ensures
        marquee_image(text, offset, orientation, direction, margin) == marquee_image(
            text,
            offset,
            orientation,
            panels::clamped_direction(orientation, direction),
            margin,
        ),
{
    assert(runs_backwards(orientation, direction) == runs_backwards(
        orientation,
        panels::clamped_direction(orientation, direction),
    ));
}

/// The two directions of an axis run the same pictures in opposite order.
pub proof fn opposite_directions_mirror(
    text: Seq<char>,
    offset: int,
    orientation: u8,
    direction: u8,
    opposite: u8,
    margin: u8,
)
    requires
        0 <= offset <= span(text, orientation),
        panels::direction_fits(orientation, direction),
        panels::direction_fits(orientation, opposite),
        direction != opposite,
    ensures
        marquee_image(text, offset, orientation, direction, margin) == marquee_image(
            text,
            span(text, orientation) - offset,
            orientation,
            opposite,
            margin,
        ),
{
    let total = span(text, orientation);
    if train(text).len() > 0 {
        backwards_is_wound_back(total, offset);
        assert(runs_backwards(orientation, direction) == !runs_backwards(orientation, opposite));
    }
}

/// Where a place on the axis stands on the train.
proof fn place_on_train(total: int, offset: int, place: int)
    requires
        0 < total,
        0 <= offset,
    ensures
        (place + train_start(total, offset, false)) % total == (place + offset) % total,
        (place + train_start(total, offset, true)) % total == (place - offset) % total,
{
    let back = total - offset % total;
    vstd::arithmetic::div_mod::lemma_add_mod_noop_right(place, offset, total);
    vstd::arithmetic::div_mod::lemma_add_mod_noop_right(place, back, total);
    vstd::arithmetic::div_mod::lemma_sub_mod_noop_right(place, offset, total);
    vstd::arithmetic::div_mod::lemma_mod_add_multiples_vanish(place - offset % total, total);
    assert(place + back == total + (place - offset % total));
}

/// What the viewer of a mounted display sees in the picture at a place along the
/// scroll axis and across it: from the left and from the top on a horizontal
/// mount, from the top and from the left on a vertical one.
pub open spec fn seen(img: Seq<u8>, orientation: u8, along: int, across: int) -> u8 {
    if panels::is_vertical(orientation) {
        img[frame::shown_at(orientation, across, along)]
    } else {
        img[frame::shown_at(orientation, along, across)]
    }
}

/// What the viewer sees of the marquee is the train where it stands.
proof fn marquee_as_seen(
    text: Seq<char>,
    offset: int,
    orientation: u8,
    direction: u8,
    margin: u8,
    along: int,
    across: int,
)
    requires
        train(text).len() > 0,
        0 <= along < MAJOR,
        0 <= across < MINOR,
    ensures
        ({
            let vertical = panels::is_vertical(orientation);
            let total = span(text, orientation);
            let start = train_start(total, offset, runs_backwards(orientation, direction));
            let pos = (panels::physical_to_virtual(along, margin as int) + start) % total;
            seen(
                marquee_image(text, offset, orientation, direction, margin),
                orientation,
                along,
                across,
            ) == (if train_pixel(train(text), vertical, pos, across) {
                MARQUEE_LEVEL
            } else {
                0
            })
        }),
{
    let vertical = panels::is_vertical(orientation);
    let start = train_start(
        span(text, orientation),
        offset,
        runs_backwards(orientation, direction),
    );
    let src = train_image(train(text), start, vertical, margin);
    if vertical {
        frame::every_mount_shows_the_picture_upright(src, orientation, across, along);
        assert((along * 10 + across) / 10 == along && (along * 10 + across) % 10 == across);
    } else {
        frame::every_mount_shows_the_picture_upright(src, orientation, along, across);
        assert((across * 30 + along) % 30 == along && (across * 30 + along) / 30 == across);
    }
}

/// Every direction moves the picture the way it is called, gaps between the
/// panels counted: right to left moves it leftwards, left to right rightwards,
/// bottom to top upwards and top to bottom downwards. Of two places along the
/// axis, one hands what it shows to the other in as many steps as they are units
/// apart.
pub proof fn directions_are_what_they_are_called(
    text: Seq<char>,
    offset: int,
    orientation: u8,
    margin: u8,
    near: int,
    far: int,
    across: int,
)
    requires
        0 <= offset,
        0 <= near <= far < MAJOR,
        0 <= across < MINOR,
    ensures
        ({
            let steps = panels::physical_to_virtual(far, margin as int)
                - panels::physical_to_virtual(near, margin as int);
            let at = |direction: u8, k: int, along: int|
                seen(
                    marquee_image(text, k, orientation, direction, margin),
                    orientation,
                    along,
                    across,
                );
            &&& steps >= 0
            &&& panels::is_vertical(orientation) ==> {
                &&& at(DIR_BOTTOM_TO_TOP, offset + steps, near) == at(
                    DIR_BOTTOM_TO_TOP,
                    offset,
                    far,
                )
                &&& at(DIR_TOP_TO_BOTTOM, offset + steps, far) == at(
                    DIR_TOP_TO_BOTTOM,
                    offset,
                    near,
                )
            }
            &&& !panels::is_vertical(orientation) ==> {
                &&& at(DIR_RIGHT_TO_LEFT, offset + steps, near) == at(
                    DIR_RIGHT_TO_LEFT,
                    offset,
                    far,
                )
                &&& at(DIR_LEFT_TO_RIGHT, offset + steps, far) == at(
                    DIR_LEFT_TO_RIGHT,
                    offset,
                    near,
                )
            }
        }),
{
    let vertical = panels::is_vertical(orientation);
    let n = panels::physical_to_virtual(near, margin as int);
    let f = panels::physical_to_virtual(far, margin as int);
    let steps = f - n;
    if near < far {
        panels::panels_are_drawn_in_order(near, far, margin);
    }
    let (up, down) = if vertical {
        (DIR_BOTTOM_TO_TOP, DIR_TOP_TO_BOTTOM)
    } else {
        (DIR_RIGHT_TO_LEFT, DIR_LEFT_TO_RIGHT)
    };
    if train(text).len() > 0 {
        let total = span(text, orientation);
        marquee_as_seen(text, offset + steps, orientation, up, margin, near, across);
        marquee_as_seen(text, offset, orientation, up, margin, far, across);
        marquee_as_seen(text, offset + steps, orientation, down, margin, far, across);
        marquee_as_seen(text, offset, orientation, down, margin, near, across);
        place_on_train(total, offset + steps, n);
        place_on_train(total, offset, f);
        place_on_train(total, offset + steps, f);
        place_on_train(total, offset, n);
        assert(n + (offset + steps) == f + offset);
        assert(f - (offset + steps) == n - offset);
    } else if vertical {
        frame::every_mount_shows_the_picture_upright(Seq::empty(), orientation, across, near);
        frame::every_mount_shows_the_picture_upright(Seq::empty(), orientation, across, far);
    } else {
        frame::every_mount_shows_the_picture_upright(Seq::empty(), orientation, near, across);
        frame::every_mount_shows_the_picture_upright(Seq::empty(), orientation, far, across);
    }
}

/// Within a panel, or anywhere if there are no gaps, a step moves the picture by
/// one pixel in the direction it is called after.
pub proof fn a_step_moves_the_picture_one_pixel(
    text: Seq<char>,
    offset: int,
    orientation: u8,
    margin: u8,
    along: int,
    across: int,
)
    requires
        0 <= offset,
        0 <= along < MAJOR - 1,
        0 <= across < MINOR,
        margin == 0 || along % 10 != 9,
    ensures
        ({
            let at = |direction: u8, k: int, place: int|
                seen(
                    marquee_image(text, k, orientation, direction, margin),
                    orientation,
                    place,
                    across,
                );
            &&& panels::is_vertical(orientation) ==> {
                &&& at(DIR_BOTTOM_TO_TOP, offset + 1, along) == at(
                    DIR_BOTTOM_TO_TOP,
                    offset,
                    along + 1,
                )
                &&& at(DIR_TOP_TO_BOTTOM, offset + 1, along + 1) == at(
                    DIR_TOP_TO_BOTTOM,
                    offset,
                    along,
                )
            }
            &&& !panels::is_vertical(orientation) ==> {
                &&& at(DIR_RIGHT_TO_LEFT, offset + 1, along) == at(
                    DIR_RIGHT_TO_LEFT,
                    offset,
                    along + 1,
                )
                &&& at(DIR_LEFT_TO_RIGHT, offset + 1, along + 1) == at(
                    DIR_LEFT_TO_RIGHT,
                    offset,
                    along,
                )
            }
        }),
{
    if margin == 0 {
        panels::no_margin_is_contiguous(along);
        panels::no_margin_is_contiguous(along + 1);
    } else {
        assert((along + 1) / 10 == along / 10 && (along + 1) % 10 == along % 10 + 1);
    }
    directions_are_what_they_are_called(
        text,
        offset,
        orientation,
        margin,
        along,
        along + 1,
        across,
    );
}

/// An inverted mount shows what the upright one does, turned by half a turn.
pub proof fn an_inverted_mount_is_half_a_turn(
    text: Seq<char>,
    offset: int,
    direction: u8,
    margin: u8,
)
    ensures
        marquee_image(text, offset, ORIENT_180, direction, margin) == frame::oriented(
            marquee_image(text, offset, ORIENT_0, direction, margin),
            ORIENT_180,
        ),
        marquee_image(text, offset, ORIENT_270, direction, margin) == frame::oriented(
            marquee_image(text, offset, ORIENT_90, direction, margin),
            ORIENT_180,
        ),
{
    if train(text).len() > 0 {
        let across = train_image(
            train(text),
            train_start(span(text, ORIENT_0), offset, runs_backwards(ORIENT_0, direction)),
            false,
            margin,
        );
        let upward = train_image(
            train(text),
            train_start(span(text, ORIENT_90), offset, runs_backwards(ORIENT_90, direction)),
            true,
            margin,
        );
        frame::upright_is_unchanged(across);
        frame::inverted_vertical_is_half_a_turn(upward);
    } else {
        let dark = Seq::new(PIXELS as nat, |i: int| 0u8);
        assert(frame::oriented(dark, ORIENT_180) =~= dark);
    }
}

/// A pixel of the marquee is dark or lit, and nothing in between.
pub proof fn the_marquee_has_two_levels(
    text: Seq<char>,
    offset: int,
    orientation: u8,
    direction: u8,
    margin: u8,
    i: int,
)
    requires
        0 <= i < PIXELS,
    ensures
        ({
            let img = marquee_image(text, offset, orientation, direction, margin);
            &&& img.len() == PIXELS
            &&& img[i] == 0 || img[i] == MARQUEE_LEVEL
        }),
{
    frame::rotation_is_a_permutation(orientation, i % 30, i / 30, i % 30, i / 30);
}

/// The offset that follows `offset`, wrapped at the span of the text.
pub open spec fn next_offset(text: Seq<char>, orientation: u8, offset: int) -> int {
    if span(text, orientation) > 0 {
        (offset + 1) % span(text, orientation)
    } else {
        0
    }
}

/// Wrapping the offset at the span is not visible.
pub proof fn wrapping_is_invisible(
    text: Seq<char>,
    offset: int,
    orientation: u8,
    direction: u8,
    margin: u8,
)
    requires
        0 <= offset,
    ensures
        marquee_image(
            text,
            next_offset(text, orientation, offset),
            orientation,
            direction,
            margin,
        ) == marquee_image(text, offset + 1, orientation, direction, margin),
{
    let total = span(text, orientation);
    if train(text).len() > 0 {
        vstd::arithmetic::div_mod::lemma_mod_twice(offset + 1, total);
    }
}

/// The train drawn onto the whole virtual canvas, gaps and all, the way a sender
/// draws a frame.
pub open spec fn train_canvas(bytes: Seq<u8>, start: int, vertical: bool, margin: u8) -> Seq<u8> {
    let total = train_len(bytes.len() as int, vertical);
    let length = panels::virtual_len(margin as int);
    Seq::new(
        (length * MINOR) as nat,
        |k: int|
            {
                let along = if vertical {
                    k / MINOR as int
                } else {
                    k % length
                };
                let across = if vertical {
                    k % MINOR as int
                } else {
                    k / length
                };
                if train_pixel(bytes, vertical, (along + start) % total, across) {
                    MARQUEE_LEVEL
                } else {
                    0
                }
            },
    )
}

/// The marquee and streamed frames agree about where the seams are: a sender
/// that draws the marquee onto the virtual canvas gets what the marquee shows.
pub proof fn the_seams_agree(bytes: Seq<u8>, start: int, orientation: u8, margin: u8)
    ensures
        ({
            let vertical = panels::is_vertical(orientation);
            frame::gapped_frame(train_canvas(bytes, start, vertical, margin), orientation, margin)
                == train_image(bytes, start, vertical, margin)
        }),
{
    let vertical = panels::is_vertical(orientation);
    let length = panels::virtual_len(margin as int);
    let canvas = train_canvas(bytes, start, vertical, margin);
    let cut = frame::gapped_frame(canvas, orientation, margin);
    let shown = train_image(bytes, start, vertical, margin);
    assert forall|i: int| 0 <= i < PIXELS implies #[trigger] cut[i] == shown[i] by {
        let p = major_of(vertical, i);
        let along = panels::physical_to_virtual(p, margin as int);
        let across = minor_of(vertical, i);
        panels::axis_maps_agree(along, p, margin);
        assert(0 <= along < length);
        assert(0 <= across < MINOR);
        if vertical {
            let k = along * MINOR + across;
            assert(k / MINOR as int == along && k % MINOR as int == across);
        } else {
            let k = across * length + along;
            assert(k < length * 10) by (nonlinear_arith)
                requires
                    k == across * length + along,
                    0 <= along < length,
                    across <= 9,
            ;
            assert(k / length == across && k % length == along) by {
                vstd::arithmetic::div_mod::lemma_fundamental_div_mod_converse(
                    k,
                    length,
                    across,
                    along,
                );
            }
        }
    }
    assert(cut =~= shown);
}

/// What is on the panels where the viewer looks `along` the scroll axis and
/// `across` it, after the text has scrolled `offset` steps.
///
/// The text is cut off at 64 characters and stands in reading order, a glyph of
/// the font for each of its bytes: small letters as capitals, and a blank for
/// what the font does not have. Glyphs follow each other every six columns on a
/// horizontal mount, a row down, and every eight rows on a vertical one, two
/// columns in; after the last comes the first again. The dead units between two
/// panels take up their part of the text. Scrolling moves the text towards the
/// start of the axis, and away from it when it runs left to right or top to
/// bottom.
pub open spec fn reads_at(
    img: Seq<u8>,
    text: Seq<char>,
    offset: int,
    orientation: u8,
    direction: u8,
    margin: u8,
    along: int,
    across: int,
) -> bool {
    let bytes = vstd::utf8::encode_utf8(
        if text.len() <= 64 {
            text
        } else {
            text.take(64)
        },
    );
    let vertical = orientation == 1 || orientation == 3;
    let pixel = img[if orientation == 1 {
        across * 30 + (29 - along)
    } else if orientation == 2 {
        (9 - across) * 30 + (29 - along)
    } else if orientation == 3 {
        (9 - across) * 30 + along
    } else {
        across * 30 + along
    }];
    let unit = along + (along / 10) * margin;
    let scrolled = if vertical && direction == 3 || !vertical && direction != 0 {
        unit + offset
    } else {
        unit - offset
    };
    if bytes.len() == 0 {
        pixel == 0
    } else if vertical {
        let pos = scrolled % (8 * bytes.len() as int);
        pixel == font_level(bytes[pos / 8], across - 2, pos % 8)
    } else {
        let pos = scrolled % (6 * bytes.len() as int);
        pixel == font_level(bytes[pos / 6], pos % 6, across - 1)
    }
}

/// The level at which the font draws a place of a glyph: 100 where the bit of
/// the row is set in the byte of the column, and dark elsewhere.
pub open spec fn font_level(b: u8, column: int, row: int) -> u8 {
    let glyph = if 97 <= b <= 122 {
        b - 64
    } else if 32 <= b <= 96 {
        b - 32
    } else {
        0
    };
    if 0 <= column < 5 && 0 <= row < 7 && font::FONT@[glyph * 5 + column] & (1u8 << (row as u8))
        != 0 {
        100
    } else {
        0
    }
}

/// The panels show the text, wherever one looks and however it has scrolled.
pub proof fn the_panels_show_the_text(
    text: Seq<char>,
    offset: int,
    orientation: u8,
    direction: u8,
    margin: u8,
    along: int,
    across: int,
)
    requires
        0 <= offset,
        0 <= along < 30,
        0 <= across < 10,
    ensures
        reads_at(
            marquee_image(text, offset, orientation, direction, margin),
            text,
            offset,
            orientation,
            direction,
            margin,
            along,
            across,
        ),
{
    let shown = if text.len() <= 64 {
        text
    } else {
        text.take(64)
    };
    assert(text::truncated(text, MARQUEE_TEXT_MAX as int) =~= shown);
    let unit = panels::physical_to_virtual(along, margin as int);
    assert(unit == along + (along / 10) * margin) by (nonlinear_arith)
        requires
            unit == (along / 10) * (10 + margin) + along % 10,
    ;
    if train(text).len() > 0 {
        let total = span(text, orientation);
        marquee_as_seen(text, offset, orientation, direction, margin, along, across);
        place_on_train(total, offset, unit);
    } else if panels::is_vertical(orientation) {
        frame::every_mount_shows_the_picture_upright(Seq::empty(), orientation, across, along);
    } else {
        frame::every_mount_shows_the_picture_upright(Seq::empty(), orientation, along, across);
    }
}

/// The text comes round again after as many steps as its glyphs take up: eight
/// rows each on a vertical mount, six columns each on a horizontal one.
pub proof fn the_span_is_a_pitch_for_every_byte(text: Seq<char>, orientation: u8)
    ensures
        span(text, orientation) == vstd::utf8::encode_utf8(
            if text.len() <= 64 {
                text
            } else {
                text.take(64)
            },
        ).len() * (if orientation == 1 || orientation == 3 {
            8int
        } else {
            6int
        }),
{
    assert(text::truncated(text, MARQUEE_TEXT_MAX as int) =~= if text.len() <= 64 {
        text
    } else {
        text.take(64)
    });
}

/// A text can be read: before it has scrolled, without gaps, the glyph of its
/// byte `k` stands `k` pitches along an upright mount, the first one at its
/// start.
pub proof fn the_text_can_be_read(
    text: Seq<char>,
    direction: u8,
    k: int,
    column: int,
    row: int,
)
    requires
        0 <= k < vstd::utf8::encode_utf8(text).len(),
        text.len() <= 64,
        0 <= column < 5,
        0 <= row < 7,
    ensures
        ({
            let byte = vstd::utf8::encode_utf8(text)[k];
            let glyph = if 97 <= byte <= 122 {
                byte - 64
            } else if 32 <= byte <= 96 {
                byte - 32
            } else {
                0
            };
            let lit = font::FONT@[glyph * 5 + column] & (1u8 << (row as u8)) != 0;
            let level: u8 = if lit {
                100
            } else {
                0
            };
            &&& 6 * k + 4 < 30 ==> marquee_image(text, 0, 0, direction, 0)[(row + 1) * 30 + 6 * k
                + column] == level
            &&& 8 * k + 6 < 30 ==> marquee_image(text, 0, 1, direction, 0)[(column + 2) * 30 + (29
                - (8 * k + row))] == level
        }),
{
    let n = vstd::utf8::encode_utf8(text).len() as int;
    if 6 * k + 4 < 30 {
        let along = 6 * k + column;
        the_panels_show_the_text(text, 0, 0, direction, 0, along, row + 1);
        assert(along + (along / 10) * 0 == along);
        vstd::arithmetic::div_mod::lemma_small_mod(along as nat, (6 * n) as nat);
        assert(along / 6 == k && along % 6 == column);
    }
    if 8 * k + 6 < 30 {
        let along = 8 * k + row;
        the_panels_show_the_text(text, 0, 1, direction, 0, along, column + 2);
        assert(along + (along / 10) * 0 == along);
        vstd::arithmetic::div_mod::lemma_small_mod(along as nat, (8 * n) as nat);
        assert(along / 8 == k && along % 8 == row);
    }
}

} // verus!
