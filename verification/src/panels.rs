//! The shape of the display: three square panels in a row, the gaps between
//! them, and the codes for how the whole thing is mounted.

use vstd::prelude::*;

verus! {

/// Three 10x10 panels are seated in the three lamps of a traffic light, so
/// they are not physically continuous.
pub const PANEL_COUNT: usize = 3;

/// Each panel is this long along the major axis.
pub const PANEL_SIZE: usize = 10;

/// Gaps between panels.
pub const PANEL_GAPS: usize = 2;

/// Length of the major axis of the physical image: the panels end to end.
pub const MAJOR: usize = 30;

/// Length of the minor axis of the physical image.
pub const MINOR: usize = 10;

/// Pixels in an image.
pub const PIXELS: usize = 300;

/// The largest number of dead units that may be set between adjacent panels.
pub const PANEL_MARGIN_MAX: u8 = 20;

/// No gap: the panels are treated as one contiguous area.
pub const PANEL_MARGIN_DEFAULT: u8 = 0;

/// Whether streamed frames account for the gaps unless told otherwise.
pub const PANEL_MARGIN_STREAMS_DEFAULT: bool = false;

/// Mounted horizontally, upright.
pub const ORIENT_0: u8 = 0;

/// Mounted vertically, upright.
pub const ORIENT_90: u8 = 1;

/// Mounted horizontally, inverted.
pub const ORIENT_180: u8 = 2;

/// Mounted vertically, inverted.
pub const ORIENT_270: u8 = 3;

pub const ORIENT_DEFAULT: u8 = ORIENT_0;

/// Scroll directions. The first pair belongs to horizontal mounts, the second
/// to vertical ones; `clamp_direction` keeps them apart.
pub const DIR_LEFT_TO_RIGHT: u8 = 0;

pub const DIR_RIGHT_TO_LEFT: u8 = 1;

pub const DIR_TOP_TO_BOTTOM: u8 = 2;

pub const DIR_BOTTOM_TO_TOP: u8 = 3;

pub const DIR_DEFAULT: u8 = DIR_RIGHT_TO_LEFT;

/// Length of the virtual major axis: the panels and the gaps between them.
pub open spec fn virtual_len(margin: int) -> int {
    MAJOR + PANEL_GAPS * margin
}

/// Where the panel numbered `panel` begins on the virtual major axis.
pub open spec fn panel_start(panel: int, margin: int) -> int {
    panel * (PANEL_SIZE + margin)
}

/// The virtual position at which the physical position `p` is shown.
pub open spec fn physical_to_virtual(p: int, margin: int) -> int {
    panel_start(p / PANEL_SIZE as int, margin) + p % PANEL_SIZE as int
}

/// The physical position shown at the virtual position `v`, if `v` falls on a
/// panel and not in a gap or past the end.
pub open spec fn physical_at(v: int, margin: int) -> Option<int> {
    if 0 <= v < PANEL_SIZE {
        Some(v)
    } else if 0 <= v - panel_start(1, margin) < PANEL_SIZE {
        Some(PANEL_SIZE + (v - panel_start(1, margin)))
    } else if 0 <= v - panel_start(2, margin) < PANEL_SIZE {
        Some(2 * PANEL_SIZE + (v - panel_start(2, margin)))
    } else {
        None
    }
}

/// Virtual major-axis length for a given margin: the three panels plus the two
/// inter-panel gaps.
pub fn virtual_major(margin: u8) -> (len: usize)
    ensures
        len == virtual_len(margin as int),
{
    PANEL_COUNT * PANEL_SIZE + PANEL_GAPS * margin as usize
}

/// Map a virtual major-axis index to its physical index, or `None` if it lands
/// in an inter-panel gap (a dead zone that is never shown) or past the end.
/// Shared by the marquee and stream paths so that the two can never disagree
/// about where the seams are.
pub fn virtual_to_physical_major(vi: usize, margin: u8) -> (pi: Option<usize>)
    ensures
        match pi {
            Some(p) => physical_at(vi as int, margin as int) == Some(p as int),
            None => physical_at(vi as int, margin as int) is None,
        },
{
    let m: usize = margin as usize;
    let mut v: usize = vi;
    let mut panel: usize = 0;
    while panel < PANEL_COUNT
        invariant
            m == margin,
            panel <= PANEL_COUNT,
            panel == 0 ==> v == vi,
            panel == 1 ==> v + panel_start(1, m as int) == vi,
            panel == 2 ==> v + panel_start(2, m as int) == vi,
            panel == 3 ==> v + panel_start(2, m as int) + PANEL_SIZE == vi,
        decreases PANEL_COUNT - panel,
    {
        if v < PANEL_SIZE {
            return Some(panel * PANEL_SIZE + v);
        }
        v = v - PANEL_SIZE;
        // after the last panel there is no trailing gap
        if panel < PANEL_COUNT - 1 {
            if v < m {
                return None;
            }
            v = v - m;
        }
        panel = panel + 1;
    }
    None
}

/// A code for a vertical mount.
pub open spec fn is_vertical(orientation: u8) -> bool {
    orientation == ORIENT_90 || orientation == ORIENT_270
}

/// The light hangs upside down.
pub open spec fn is_inverted(orientation: u8) -> bool {
    orientation == ORIENT_180 || orientation == ORIENT_270
}

/// One of the four mounting codes.
pub open spec fn is_orientation(orientation: u8) -> bool {
    orientation <= ORIENT_270
}

/// A direction that scrolls along the major axis of the given mount.
pub open spec fn direction_fits(orientation: u8, direction: u8) -> bool {
    if is_vertical(orientation) {
        direction == DIR_TOP_TO_BOTTOM || direction == DIR_BOTTOM_TO_TOP
    } else {
        direction == DIR_LEFT_TO_RIGHT || direction == DIR_RIGHT_TO_LEFT
    }
}

/// The direction used for a mount when a given one does not fit it.
pub open spec fn default_direction(orientation: u8) -> u8 {
    if is_vertical(orientation) {
        DIR_TOP_TO_BOTTOM
    } else {
        DIR_RIGHT_TO_LEFT
    }
}

/// `direction` if it fits the mount, else that mount's default.
pub open spec fn clamped_direction(orientation: u8, direction: u8) -> u8 {
    if direction_fits(orientation, direction) {
        direction
    } else {
        default_direction(orientation)
    }
}

/// `orientation` if it is one of the four codes, else the default.
pub open spec fn clamped_orientation(orientation: u8) -> u8 {
    if is_orientation(orientation) {
        orientation
    } else {
        ORIENT_DEFAULT
    }
}

/// `margin`, but no more than the maximum.
pub open spec fn clamped_margin(margin: u8) -> u8 {
    if margin <= PANEL_MARGIN_MAX {
        margin
    } else {
        PANEL_MARGIN_MAX
    }
}

/// True when the given orientation places the display in a vertical mount.
pub fn orientation_is_vertical(orientation: u8) -> (vertical: bool)
    ensures
        vertical == is_vertical(orientation),
{
    orientation == ORIENT_90 || orientation == ORIENT_270
}

/// Decompose an orientation code into (vertical, inverted) for the portal.
/// Anything that is not a code counts as horizontal and upright.
pub fn orientation_parts(orientation: u8) -> (parts: (bool, bool))
    ensures
        parts.0 == is_vertical(orientation),
        parts.1 == is_inverted(orientation),
{
    if orientation == ORIENT_180 {
        (false, true)
    } else if orientation == ORIENT_90 {
        (true, false)
    } else if orientation == ORIENT_270 {
        (true, true)
    } else {
        (false, false)
    }
}

/// Clamp a stored or received direction to one that is valid for the given
/// orientation. If the direction belongs to the wrong axis, fall back to a
/// sane default for that axis, so that the renderer never sees an impossible
/// orientation/direction pair.
pub fn clamp_direction(orientation: u8, direction: u8) -> (clamped: u8)
    ensures
        clamped == clamped_direction(orientation, direction),
        direction_fits(orientation, clamped),
{
    if orientation_is_vertical(orientation) {
        if direction == DIR_TOP_TO_BOTTOM || direction == DIR_BOTTOM_TO_TOP {
            direction
        } else {
            DIR_TOP_TO_BOTTOM
        }
    } else {
        if direction == DIR_LEFT_TO_RIGHT || direction == DIR_RIGHT_TO_LEFT {
            direction
        } else {
            DIR_RIGHT_TO_LEFT
        }
    }
}

/// One of the four orientation codes: the given one, or the default in place
/// of anything else.
pub fn clamp_orientation(orientation: u8) -> (clamped: u8)
    ensures
        clamped == clamped_orientation(orientation),
        is_orientation(clamped),
{
    if orientation <= ORIENT_270 {
        orientation
    } else {
        ORIENT_DEFAULT
    }
}

/// A panel margin within the supported range.
pub fn clamp_margin(margin: u8) -> (clamped: u8)
    ensures
        clamped == clamped_margin(margin),
        clamped <= PANEL_MARGIN_MAX,
{
    if margin <= PANEL_MARGIN_MAX {
        margin
    } else {
        PANEL_MARGIN_MAX
    }
}

/// The two directions of the axis map describe the same correspondence: a
/// virtual position shows the physical position `p` exactly when it is the
/// one at which `p` is drawn.
pub proof fn axis_maps_agree(v: int, p: int, margin: u8)
    ensures
        physical_at(v, margin as int) == Some(p) <==> 0 <= p < MAJOR && physical_to_virtual(
            p,
            margin as int,
        ) == v,
{
    assert(0 <= p < 10 ==> p / 10 == 0 && p % 10 == p);
    assert(10 <= p < 20 ==> p / 10 == 1 && p % 10 == p - 10);
    assert(20 <= p < 30 ==> p / 10 == 2 && p % 10 == p - 20);
}

/// Every physical position is drawn somewhere on the virtual axis, and the
/// panels appear there in their physical order without overlapping.
pub proof fn panels_are_drawn_in_order(p: int, q: int, margin: u8)
    requires
        0 <= p < q < MAJOR,
    ensures
        0 <= physical_to_virtual(p, margin as int),
        physical_to_virtual(p, margin as int) < physical_to_virtual(q, margin as int),
        physical_to_virtual(q, margin as int) < virtual_len(margin as int),
{
    axis_maps_agree(physical_to_virtual(p, margin as int), p, margin);
    axis_maps_agree(physical_to_virtual(q, margin as int), q, margin);
}

/// With no margin the virtual axis is the physical one.
pub proof fn no_margin_is_contiguous(v: int)
    ensures
        virtual_len(0) == MAJOR,
        physical_at(v, 0) == (if 0 <= v < MAJOR {
            Some(v)
        } else {
            None
        }),
        0 <= v < MAJOR ==> physical_to_virtual(v, 0) == v,
{
    axis_maps_agree(v, v, 0);
}

/// Exactly the units between the panels, `margin` of them in each gap, show
/// nothing.
pub proof fn gaps_are_dead(v: int, margin: u8)
    requires
        0 <= v < virtual_len(margin as int),
    ensures
        physical_at(v, margin as int) is None <==> {
            ||| PANEL_SIZE <= v < PANEL_SIZE + margin
            ||| 2 * PANEL_SIZE + margin <= v < 2 * PANEL_SIZE + 2 * margin
        },
{
}

/// Clamping is settled after one application.
pub proof fn clamps_are_idempotent(orientation: u8, direction: u8, margin: u8)
    ensures
        clamped_orientation(clamped_orientation(orientation)) == clamped_orientation(orientation),
        clamped_direction(orientation, clamped_direction(orientation, direction))
            == clamped_direction(orientation, direction),
        clamped_margin(clamped_margin(margin)) == clamped_margin(margin),
{
}

/// A place along the panels stands on the virtual axis as far on as there are
/// dead units before it: none on the first panel, one gap on the second and two
/// on the third.
pub proof fn gaps_push_the_panels_apart(p: int, v: int, margin: u8)
    ensures
        virtual_len(margin as int) == 30 + 2 * margin,
        0 <= p < 10 ==> physical_to_virtual(p, margin as int) == p,
        10 <= p < 20 ==> physical_to_virtual(p, margin as int) == p + margin,
        20 <= p < 30 ==> physical_to_virtual(p, margin as int) == p + 2 * margin,
        physical_at(v, margin as int) == Some(p) <==> {
            ||| 0 <= p < 10 && v == p
            ||| 10 <= p < 20 && v == p + margin
            ||| 20 <= p < 30 && v == p + 2 * margin
        },
{
    axis_maps_agree(v, p, margin);
    assert(0 <= p < 10 ==> p / 10 == 0 && p % 10 == p);
    assert(10 <= p < 20 ==> p / 10 == 1 && p % 10 == p - 10);
    assert(20 <= p < 30 ==> p / 10 == 2 && p % 10 == p - 20);
}

/// The codes of the mounts: 0 and 2 are horizontal, 1 and 3 vertical, and the
/// later of each pair hangs upside down. Anything else counts as 0.
pub proof fn the_codes_name_the_mounts(orientation: u8)
    ensures
        is_vertical(orientation) <==> orientation == 1 || orientation == 3,
        is_inverted(orientation) <==> orientation == 2 || orientation == 3,
        orientation <= 3 ==> clamped_orientation(orientation) == orientation,
        orientation > 3 ==> clamped_orientation(orientation) == 0,
{
}

/// What is asked for is what is set, as long as it is possible: a direction
/// along the axis of the mount and a margin of up to 20 are taken as they are.
/// Otherwise the text runs from right to left or from top to bottom, and the
/// margin is 20.
pub proof fn what_is_possible_is_not_clamped(orientation: u8, direction: u8, margin: u8)
    ensures
        ({
            let vertical = orientation == 1 || orientation == 3;
            let clamped = clamped_direction(orientation, direction);
            &&& vertical && (direction == 2 || direction == 3) ==> clamped == direction
            &&& vertical && !(direction == 2 || direction == 3) ==> clamped == 2
            &&& !vertical && direction <= 1 ==> clamped == direction
            &&& !vertical && direction > 1 ==> clamped == 1
        }),
        margin <= 20 ==> clamped_margin(margin) == margin,
        margin > 20 ==> clamped_margin(margin) == 20,
{
}

} // verus!
