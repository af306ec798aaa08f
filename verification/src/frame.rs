//! Images on the panels: rotating them to the physical mounting, and cutting
//! the gaps out of streamed frames.
//!
//! An image is 30 pixels along the major axis and 10 along the minor one, a
//! byte of brightness each, stored row by row as a 30x10 grid. Before it is
//! rotated, an image for a vertical mount is laid out as a 10x30 grid instead.

use vstd::prelude::*;

use crate::panels;
use crate::panels::{orientation_is_vertical, virtual_major, virtual_to_physical_major};
use crate::panels::{MAJOR, MINOR, ORIENT_0, ORIENT_180, ORIENT_270, ORIENT_90, PIXELS};

verus! {

/// One byte of brightness for every pixel.
pub type Image = [u8; 300];

/// Position in a source image of what the mounted display shows in column `x`
/// of row `y`.
///
/// Upright horizontal images are shown as they are and inverted ones turned by
/// half a turn. Vertical images are authored 10 wide and 30 tall: upright, their
/// top left corner lands at the right-hand end of the first row; inverted, at
/// the left-hand end of the last.
pub open spec fn source_position(orientation: u8, x: int, y: int) -> int {
    if orientation == ORIENT_180 {
        (9 - y) * 30 + (29 - x)
    } else if orientation == ORIENT_90 {
        (29 - x) * 10 + y
    } else if orientation == ORIENT_270 {
        x * 10 + (9 - y)
    } else {
        y * 30 + x
    }
}

/// The image that the mounted display has to be given to show `src`.
pub open spec fn oriented(src: Seq<u8>, orientation: u8) -> Seq<u8> {
    Seq::new(
        PIXELS as nat,
        |i: int| src[source_position(orientation, i % MAJOR as int, i / MAJOR as int)],
    )
}

fn source_index(orientation: u8, x: usize, y: usize) -> (i: usize)
    requires
        x < MAJOR,
        y < MINOR,
    ensures
        i == source_position(orientation, x as int, y as int),
        i < PIXELS,
{
    if orientation == ORIENT_180 {
        (9 - y) * 30 + (29 - x)
    } else if orientation == ORIENT_90 {
        (29 - x) * 10 + y
    } else if orientation == ORIENT_270 {
        x * 10 + (9 - y)
    } else {
        y * 30 + x
    }
}

/// Rotate the image in place to match the physical mounting.
pub fn apply_orientation(img: &mut Image, orientation: u8)
    ensures
        final(img)@ == oriented(old(img)@, orientation),
{
    let src: Image = *img;
    let mut y: usize = 0;
    while y < MINOR
        invariant
            y <= MINOR,
            src@ == old(img)@,
            forall|i: int| 0 <= i < y * MAJOR ==> img@[i] == oriented(src@, orientation)[i],
        decreases MINOR - y,
    {
        let mut x: usize = 0;
        while x < MAJOR
            invariant
                x <= MAJOR,
                y < MINOR,
                src@ == old(img)@,
                forall|i: int|
                    0 <= i < y * MAJOR + x ==> img@[i] == oriented(src@, orientation)[i],
            decreases MAJOR - x,
        {
            let at: usize = y * MAJOR + x;
            img[at] = src[source_index(orientation, x, y)];
            assert((30 * y + x) % 30 == x && (30 * y + x) / 30 == y);
            x = x + 1;
        }
        y = y + 1;
    }
    assert(img@ =~= oriented(src@, orientation));
}

/// The byte at `i`, or black beyond the end.
pub open spec fn byte_or_black(bytes: Seq<u8>, i: int) -> u8 {
    if i < bytes.len() {
        bytes[i]
    } else {
        0
    }
}

/// The first 300 bytes of a frame, padded with black.
pub open spec fn contiguous_frame(payload: Seq<u8>) -> Seq<u8> {
    Seq::new(PIXELS as nat, |i: int| byte_or_black(payload, i))
}

/// A frame that was authored into the gapped virtual canvas, reduced to what
/// falls on the panels. For a vertical mount the canvas is 10 wide and as tall
/// as the virtual axis, otherwise as wide as the virtual axis and 10 tall.
pub open spec fn gapped_frame(payload: Seq<u8>, orientation: u8, margin: u8) -> Seq<u8> {
    Seq::new(
        PIXELS as nat,
        |i: int|
            if panels::is_vertical(orientation) {
                byte_or_black(
                    payload,
                    panels::physical_to_virtual(i / MINOR as int, margin as int) * MINOR + i % MINOR as int,
                )
            } else {
                byte_or_black(
                    payload,
                    (i / MAJOR as int) * panels::virtual_len(margin as int) + panels::physical_to_virtual(
                        i % MAJOR as int,
                        margin as int,
                    ),
                )
            },
    )
}

fn byte_at(payload: &[u8], i: usize) -> (b: u8)
    ensures
        b == byte_or_black(payload@, i as int),
{
    if i < payload.len() {
        payload[i]
    } else {
        0
    }
}

/// Build a physical image (before rotation) from the payload of a frame: short
/// frames are padded with black, long ones cut off.
pub fn stream_frame_contiguous(payload: &[u8]) -> (phys: Image)
    ensures
        phys@ == contiguous_frame(payload@),
{
    let mut phys: Image = [0u8; 300];
    let mut i: usize = 0;
    while i < PIXELS
        invariant
            i <= PIXELS,
            forall|j: int| 0 <= j < i ==> phys@[j] == byte_or_black(payload@, j),
        decreases PIXELS - i,
    {
        phys[i] = byte_at(payload, i);
        i = i + 1;
    }
    assert(phys@ =~= contiguous_frame(payload@));
    phys
}

/// Build a physical image (before rotation) from a frame that was authored
/// into the gapped virtual canvas: the gap slabs are dropped and the three
/// panel blocks kept. Bytes beyond a short frame read as black; extra bytes
/// are ignored.
pub fn stream_frame_with_gaps(payload: &[u8], orientation: u8, margin: u8) -> (phys: Image)
    ensures
        phys@ == gapped_frame(payload@, orientation, margin),
{
    let vmajor: usize = virtual_major(margin);
    let mut phys: Image = [0u8; 300];
    let ghost want = gapped_frame(payload@, orientation, margin);
    if orientation_is_vertical(orientation) {
        let mut vrow: usize = 0;
        while vrow < vmajor
            invariant
                vrow <= vmajor,
                vmajor == panels::virtual_len(margin as int),
                panels::is_vertical(orientation),
                want == gapped_frame(payload@, orientation, margin),
                forall|i: int|
                    0 <= i < PIXELS && panels::physical_to_virtual(i / MINOR as int, margin as int) < vrow
                        ==> #[trigger] phys@[i] == want[i],
            decreases vmajor - vrow,
        {
            let ghost before = phys@;
            if let Some(prow) = virtual_to_physical_major(vrow, margin) {
                proof {
                    panels::axis_maps_agree(vrow as int, prow as int, margin);
                }
                let mut x: usize = 0;
                while x < MINOR
                    invariant
                        x <= MINOR,
                        prow < MAJOR,
                        vrow < vmajor,
                        vmajor == panels::virtual_len(margin as int),
                        panels::physical_to_virtual(prow as int, margin as int) == vrow,
                        panels::is_vertical(orientation),
                        want == gapped_frame(payload@, orientation, margin),
                        forall|i: int|
                            0 <= i < PIXELS && i / MINOR as int != prow ==> #[trigger] phys@[i]
                                == before[i],
                        forall|i: int|
                            prow * MINOR <= i < prow * MINOR + x ==> #[trigger] phys@[i] == want[i],
                    decreases MINOR - x,
                {
                    let at: usize = prow * MINOR + x;
                    assert(at / 10 == prow && at % 10 == x);
                    phys[at] = byte_at(payload, vrow * MINOR + x);
                    x = x + 1;
                }
            }
            proof {
                assert forall|i: int|
                    0 <= i < PIXELS && panels::physical_to_virtual(i / MINOR as int, margin as int) < vrow
                        + 1 implies #[trigger] phys@[i] == want[i] by {
                    panels::axis_maps_agree(vrow as int, i / MINOR as int, margin);
                }
            }
            vrow = vrow + 1;
        }
    } else {
        let mut vx: usize = 0;
        while vx < vmajor
            invariant
                vx <= vmajor,
                vmajor == panels::virtual_len(margin as int),
                !panels::is_vertical(orientation),
                want == gapped_frame(payload@, orientation, margin),
                forall|i: int|
                    0 <= i < PIXELS && panels::physical_to_virtual(i % MAJOR as int, margin as int) < vx
                        ==> #[trigger] phys@[i] == want[i],
            decreases vmajor - vx,
        {
            let ghost before = phys@;
            if let Some(px) = virtual_to_physical_major(vx, margin) {
                proof {
                    panels::axis_maps_agree(vx as int, px as int, margin);
                }
                let mut y: usize = 0;
                while y < MINOR
                    invariant
                        y <= MINOR,
                        px < MAJOR,
                        vx < vmajor,
                        vmajor == panels::virtual_len(margin as int),
                        panels::physical_to_virtual(px as int, margin as int) == vx,
                        !panels::is_vertical(orientation),
                        want == gapped_frame(payload@, orientation, margin),
                        forall|i: int|
                            0 <= i < PIXELS && i % MAJOR as int != px ==> #[trigger] phys@[i]
                                == before[i],
                        forall|i: int|
                            0 <= i < y * MAJOR && i % MAJOR as int == px ==> #[trigger] phys@[i]
                                == want[i],
                    decreases MINOR - y,
                {
                    let at: usize = y * MAJOR + px;
                    assert(at / 30 == y && at % 30 == px);
                    assert(y * vmajor <= 10 * 540) by (nonlinear_arith)
                        requires
                            y <= 10,
                            vmajor <= 540,
                    ;
                    phys[at] = byte_at(payload, y * vmajor + vx);
                    y = y + 1;
                }
            }
            proof {
                assert forall|i: int|
                    0 <= i < PIXELS && panels::physical_to_virtual(i % MAJOR as int, margin as int) < vx
                        + 1 implies #[trigger] phys@[i] == want[i] by {
                    panels::axis_maps_agree(vx as int, i % MAJOR as int, margin);
                }
            }
            vx = vx + 1;
        }
    }
    proof {
        assert forall|i: int| 0 <= i < PIXELS implies #[trigger] phys@[i] == want[i] by {
            let p = if panels::is_vertical(orientation) {
                i / MINOR as int
            } else {
                i % MAJOR as int
            };
            panels::axis_maps_agree(panels::physical_to_virtual(p, margin as int), p, margin);
        }
        assert(phys@ =~= want);
    }
    phys
}

/// Rotation moves pixels and neither loses nor doubles any: different places
/// on the display show different places of the source.
pub proof fn rotation_is_a_permutation(orientation: u8, x1: int, y1: int, x2: int, y2: int)
    requires
        0 <= x1 < MAJOR,
        0 <= x2 < MAJOR,
        0 <= y1 < MINOR,
        0 <= y2 < MINOR,
    ensures
        0 <= source_position(orientation, x1, y1) < PIXELS,
        source_position(orientation, x1, y1) == source_position(orientation, x2, y2) ==> x1 == x2
            && y1 == y2,
{
}

/// Where in an image given to the mounted display the viewer finds column `x` of
/// row `y` of the picture.
pub open spec fn shown_at(orientation: u8, x: int, y: int) -> int {
    if orientation == ORIENT_180 {
        (9 - y) * 30 + (29 - x)
    } else if orientation == ORIENT_90 {
        x * 30 + (29 - y)
    } else if orientation == ORIENT_270 {
        (9 - x) * 30 + y
    } else {
        y * 30 + x
    }
}

/// Every mount shows its picture upright: 30 wide and 10 tall on a horizontal
/// mount, 10 wide and 30 tall on a vertical one.
pub proof fn every_mount_shows_the_picture_upright(src: Seq<u8>, orientation: u8, x: int, y: int)
    requires
        0 <= x < (if panels::is_vertical(orientation) {
            MINOR
        } else {
            MAJOR
        }),
        0 <= y < (if panels::is_vertical(orientation) {
            MAJOR
        } else {
            MINOR
        }),
    ensures
        0 <= shown_at(orientation, x, y) < PIXELS,
        oriented(src, orientation)[shown_at(orientation, x, y)] == (if panels::is_vertical(
            orientation,
        ) {
            src[y * 10 + x]
        } else {
            src[y * 30 + x]
        }),
{
    if orientation == ORIENT_180 {
        assert(shown_at(orientation, x, y) % 30 == 29 - x);
        assert(shown_at(orientation, x, y) / 30 == 9 - y);
    } else if orientation == ORIENT_90 {
        assert(shown_at(orientation, x, y) % 30 == 29 - y);
        assert(shown_at(orientation, x, y) / 30 == x);
    } else if orientation == ORIENT_270 {
        assert(shown_at(orientation, x, y) % 30 == y);
        assert(shown_at(orientation, x, y) / 30 == 9 - x);
    } else {
        assert(shown_at(orientation, x, y) % 30 == x);
        assert(shown_at(orientation, x, y) / 30 == y);
    }
}

/// An upright horizontal image is shown as it is.
pub proof fn upright_is_unchanged(src: Seq<u8>)
    requires
        src.len() == PIXELS,
    ensures
        oriented(src, ORIENT_0) == src,
{
    assert(oriented(src, ORIENT_0) =~= src);
}

/// Turning an image by half a turn twice gives the image back.
pub proof fn half_turn_undoes_itself(src: Seq<u8>)
    requires
        src.len() == PIXELS,
    ensures
        oriented(oriented(src, ORIENT_180), ORIENT_180) == src,
{
    assert(oriented(oriented(src, ORIENT_180), ORIENT_180) =~= src);
}

/// An inverted vertical mount shows what an upright vertical one does, turned
/// by half a turn.
pub proof fn inverted_vertical_is_half_a_turn(src: Seq<u8>)
    requires
        src.len() == PIXELS,
    ensures
        oriented(src, ORIENT_270) == oriented(oriented(src, ORIENT_90), ORIENT_180),
{
    assert(oriented(src, ORIENT_270) =~= oriented(oriented(src, ORIENT_90), ORIENT_180));
}

/// With no margin, cutting out the gaps leaves the frame as it is.
pub proof fn no_margin_cuts_nothing(payload: Seq<u8>, orientation: u8)
    ensures
        gapped_frame(payload, orientation, 0) == contiguous_frame(payload),
{
    assert forall|i: int| 0 <= i < PIXELS implies #[trigger] gapped_frame(
        payload,
        orientation,
        0,
    )[i] == contiguous_frame(payload)[i] by {
        panels::no_margin_is_contiguous(i / MINOR as int);
        panels::no_margin_is_contiguous(i % MAJOR as int);
    }
    assert(gapped_frame(payload, orientation, 0) =~= contiguous_frame(payload));
}

/// Where every pixel of a picture lands on the display of a mount. An upright
/// horizontal mount takes it as it is and an inverted one turned by half a turn;
/// the picture of a vertical mount is 10 wide and 30 tall and is turned by a
/// quarter, clockwise if it is upright and against the clock if it is inverted.
pub proof fn every_pixel_has_its_place(src: Seq<u8>, x: int, y: int)
    ensures
        0 <= x < 30 && 0 <= y < 10 ==> {
            &&& oriented(src, 0)[y * 30 + x] == src[y * 30 + x]
            &&& oriented(src, 2)[(9 - y) * 30 + (29 - x)] == src[y * 30 + x]
        },
        0 <= x < 10 && 0 <= y < 30 ==> {
            &&& oriented(src, 1)[x * 30 + (29 - y)] == src[y * 10 + x]
            &&& oriented(src, 3)[(9 - x) * 30 + y] == src[y * 10 + x]
        },
        oriented(src, 0).len() == 300,
        oriented(src, 1).len() == 300,
        oriented(src, 2).len() == 300,
        oriented(src, 3).len() == 300,
{
    if 0 <= x < 30 && 0 <= y < 10 {
        every_mount_shows_the_picture_upright(src, 0, x, y);
        every_mount_shows_the_picture_upright(src, 2, x, y);
    }
    if 0 <= x < 10 && 0 <= y < 30 {
        every_mount_shows_the_picture_upright(src, 1, x, y);
        every_mount_shows_the_picture_upright(src, 3, x, y);
    }
}

/// Which byte of a frame a pixel is taken from. Without gaps that is the byte of
/// the same number. With gaps the sender's picture is longer by the dead units,
/// and a pixel is taken from as many units further on as lie before its panel.
/// Past the end of a frame everything is black.
pub proof fn every_pixel_has_its_byte(payload: Seq<u8>, margin: u8, i: int)
    requires
        0 <= i < 300,
    ensures
        ({
            let byte = |k: int|
                if k < payload.len() {
                    payload[k]
                } else {
                    0u8
                };
            let along = i % 30;
            let down = i / 10;
            &&& contiguous_frame(payload)[i] == byte(i)
            &&& gapped_frame(payload, 0, margin)[i] == byte(
                (i / 30) * (30 + 2 * margin) + along + (along / 10) * margin,
            )
            &&& gapped_frame(payload, 2, margin)[i] == gapped_frame(payload, 0, margin)[i]
            &&& gapped_frame(payload, 1, margin)[i] == byte(
                (down + (down / 10) * margin) * 10 + i % 10,
            )
            &&& gapped_frame(payload, 3, margin)[i] == gapped_frame(payload, 1, margin)[i]
        }),
{
    let along = i % 30;
    let down = i / 10;
    panels::gaps_push_the_panels_apart(along, 0, margin);
    panels::gaps_push_the_panels_apart(down, 0, margin);
    assert(0 <= along < 10 ==> (along / 10) * margin == 0);
    assert(10 <= along < 20 ==> (along / 10) * margin == margin);
    assert(20 <= along < 30 ==> (along / 10) * margin == 2 * margin);
    assert(0 <= down < 10 ==> (down / 10) * margin == 0);
    assert(10 <= down < 20 ==> (down / 10) * margin == margin);
    assert(20 <= down < 30 ==> (down / 10) * margin == 2 * margin);
}

} // verus!
