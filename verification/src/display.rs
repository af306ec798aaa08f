//! The state of the display: the live settings, the image, and what is sent
//! down the string of LEDs.

use vstd::prelude::*;

use crate::frame::Image;
use crate::marquee::{MARQUEE_LEVEL, MARQUEE_TEXT_MAX};
use crate::panels;
use crate::panels::{clamp_direction, clamp_margin, clamp_orientation};
use crate::panels::{DIR_DEFAULT, MAJOR, MINOR, ORIENT_DEFAULT, PIXELS};
use crate::panels::{PANEL_MARGIN_DEFAULT, PANEL_MARGIN_STREAMS_DEFAULT};
use crate::text;
use crate::text::truncate_chars;

verus! {

/// Default marquee text used when no value is stored.
pub const MARQUEE_TEXT_DEFAULT: &'static str = "CAMBRIDGE HACKSPACE :)";

/// Marquee speed is a delay in milliseconds between scroll steps. The bounds
/// keep the fastest setting from pegging the render thread and the slowest from
/// looking frozen.
pub const MARQUEE_SPEED_MS_MIN: u16 = 20;

pub const MARQUEE_SPEED_MS_MAX: u16 = 500;

pub const MARQUEE_SPEED_MS_DEFAULT: u16 = 100;

/// LEDs at the head of the string, ahead of the display matrix. They sit between
/// the data output and the panels as a level-shifting repeater, and double as
/// the status indicator.
pub const SACRIFICIAL_LEDS: usize = 1;

/// Total physical LEDs on the string: the sacrificial head plus the matrix.
pub const STRIP_LEN: usize = SACRIFICIAL_LEDS + 300;

/// Brightness steps, in percent, of the status indicator.
pub const STATUS_STEPS: [u8; 8] = [12, 18, 24, 31, 42, 56, 75, 100];

/// A colour, a byte per channel.
#[derive(Clone, Copy, PartialEq, Eq, Debug, Structural)]
pub struct RGB8 {
    pub r: u8,
    pub g: u8,
    pub b: u8,
}

impl RGB8 {
    pub fn new(r: u8, g: u8, b: u8) -> (color: RGB8)
        ensures
            color == (RGB8 { r, g, b }),
    {
        RGB8 { r, g, b }
    }
}

impl Default for RGB8 {
    fn default() -> (color: RGB8)
        ensures
            color == (RGB8 { r: 0, g: 0, b: 0 }),
    {
        RGB8 { r: 0, g: 0, b: 0 }
    }
}

/// The outcome of the portal's test of new network credentials, kept in memory
/// only, so that the page can display it after the user's device rejoins.
#[derive(Clone, Copy, PartialEq, Eq, Debug, Structural)]
pub enum WifiTestResult {
    /// No test has been run since boot.
    Idle,
    /// A test is currently in progress (the access point may be briefly away).
    Testing,
    /// The most recent test associated successfully.
    Success,
    /// The most recent test failed to associate before timeout.
    Failed,
}

/// A snapshot of the live, user-configurable display settings.
#[derive(Clone)]
pub struct MarqueeConfig {
    pub text: String,
    pub speed_ms: u16,
    pub orientation: u8,
    pub direction: u8,
    pub panel_margin: u8,
    pub margin_applies_streams: bool,
}

/// A delay within the supported range.
pub open spec fn clamped_speed(ms: u16) -> u16 {
    if ms < MARQUEE_SPEED_MS_MIN {
        MARQUEE_SPEED_MS_MIN
    } else if ms > MARQUEE_SPEED_MS_MAX {
        MARQUEE_SPEED_MS_MAX
    } else {
        ms
    }
}

/// Clamp a raw millisecond delay into the supported range.
pub fn clamp_speed_ms(ms: u16) -> (clamped: u16)
    ensures
        clamped == clamped_speed(ms),
        MARQUEE_SPEED_MS_MIN <= clamped <= MARQUEE_SPEED_MS_MAX,
{
    if ms < MARQUEE_SPEED_MS_MIN {
        MARQUEE_SPEED_MS_MIN
    } else if ms > MARQUEE_SPEED_MS_MAX {
        MARQUEE_SPEED_MS_MAX
    } else {
        ms
    }
}

/// The user-configurable settings, as values.
pub struct Settings {
    pub text: Seq<char>,
    pub speed_ms: u16,
    pub orientation: u8,
    pub direction: u8,
    pub panel_margin: u8,
    pub margin_applies_streams: bool,
}

impl Settings {
    /// What every operation on the display keeps: the text is bounded, the
    /// numbers are within their ranges, and the direction fits the mount.
    pub open spec fn in_range(self) -> bool {
        &&& self.text.len() <= MARQUEE_TEXT_MAX
        &&& MARQUEE_SPEED_MS_MIN <= self.speed_ms <= MARQUEE_SPEED_MS_MAX
        &&& panels::is_orientation(self.orientation)
        &&& panels::direction_fits(self.orientation, self.direction)
        &&& self.panel_margin <= panels::PANEL_MARGIN_MAX
    }

    pub open spec fn with_text(self, t: Seq<char>) -> Settings {
        Settings { text: text::truncated(t, MARQUEE_TEXT_MAX as int), ..self }
    }

    pub open spec fn with_speed(self, ms: u16) -> Settings {
        Settings { speed_ms: clamped_speed(ms), ..self }
    }

    /// A new mount brings the direction with it onto its own axis.
    pub open spec fn with_orientation(self, orientation: u8) -> Settings {
        Settings {
            orientation: panels::clamped_orientation(orientation),
            direction: panels::clamped_direction(
                panels::clamped_orientation(orientation),
                self.direction,
            ),
            ..self
        }
    }

    pub open spec fn with_direction(self, direction: u8) -> Settings {
        Settings { direction: panels::clamped_direction(self.orientation, direction), ..self }
    }

    pub open spec fn with_margin(self, margin: u8) -> Settings {
        Settings { panel_margin: panels::clamped_margin(margin), ..self }
    }

    pub open spec fn with_streams(self, applies: bool) -> Settings {
        Settings { margin_applies_streams: applies, ..self }
    }
}

/// The settings that a light has before anything is stored on it.
pub open spec fn default_settings() -> Settings {
    Settings {
        text: MARQUEE_TEXT_DEFAULT@,
        speed_ms: MARQUEE_SPEED_MS_DEFAULT,
        orientation: ORIENT_DEFAULT,
        direction: DIR_DEFAULT,
        panel_margin: PANEL_MARGIN_DEFAULT,
        margin_applies_streams: PANEL_MARGIN_STREAMS_DEFAULT,
    }
}

impl View for MarqueeConfig {
    type V = Settings;

    open spec fn view(&self) -> Settings {
        Settings {
            text: self.text@,
            speed_ms: self.speed_ms,
            orientation: self.orientation,
            direction: self.direction,
            panel_margin: self.panel_margin,
            margin_applies_streams: self.margin_applies_streams,
        }
    }
}

impl MarqueeConfig {
    /// The settings to fall back on when the live ones cannot be read.
    pub fn defaults() -> (cfg: MarqueeConfig)
        ensures
            cfg@ == default_settings(),
    {
        MarqueeConfig {
            text: MARQUEE_TEXT_DEFAULT.to_owned(),
            speed_ms: MARQUEE_SPEED_MS_DEFAULT,
            orientation: ORIENT_DEFAULT,
            direction: DIR_DEFAULT,
            panel_margin: PANEL_MARGIN_DEFAULT,
            margin_applies_streams: PANEL_MARGIN_STREAMS_DEFAULT,
        }
    }
}

/// Everything the display knows.
pub struct DisplayState {
    status_color: RGB8,
    image: Image,
    // live settings, seeded from storage and previewed from the portal
    marquee_text: String,
    marquee_speed_ms: u16,
    orientation: u8,
    direction: u8,
    panel_margin: u8,
    margin_applies_streams: bool,
    // outcome of the last test of network credentials
    wifi_test: WifiTestResult,
    // how much of a firmware upload has been written, in percent
    update: Option<u8>,
}

/// What a display knows, as values.
pub struct DisplayView {
    pub status_color: RGB8,
    pub image: Seq<u8>,
    pub settings: Settings,
    pub wifi_test: WifiTestResult,
    pub update: Option<u8>,
}

impl View for DisplayState {
    type V = DisplayView;

    closed spec fn view(&self) -> DisplayView {
        DisplayView {
            status_color: self.status_color,
            image: self.image@,
            settings: Settings {
                text: self.marquee_text@,
                speed_ms: self.marquee_speed_ms,
                orientation: self.orientation,
                direction: self.direction,
                panel_margin: self.panel_margin,
                margin_applies_streams: self.margin_applies_streams,
            },
            wifi_test: self.wifi_test,
            update: self.update,
        }
    }
}

/// A display as it is at power-on: dark, with the default settings.
pub open spec fn default_display() -> DisplayView {
    DisplayView {
        status_color: RGB8 { r: 0, g: 0, b: 0 },
        image: Seq::new(PIXELS as nat, |i: int| 0u8),
        settings: default_settings(),
        wifi_test: WifiTestResult::Idle,
        update: None,
    }
}

impl DisplayState {
    pub fn new_default() -> (state: DisplayState)
        ensures
            state@ == default_display(),
    {
        let state = DisplayState {
            status_color: RGB8::default(),
            image: [0u8; 300],
            marquee_text: MARQUEE_TEXT_DEFAULT.to_owned(),
            marquee_speed_ms: MARQUEE_SPEED_MS_DEFAULT,
            orientation: ORIENT_DEFAULT,
            direction: DIR_DEFAULT,
            panel_margin: PANEL_MARGIN_DEFAULT,
            margin_applies_streams: PANEL_MARGIN_STREAMS_DEFAULT,
            wifi_test: WifiTestResult::Idle,
            update: None,
        };
        assert(state.image@ =~= Seq::new(PIXELS as nat, |i: int| 0u8));
        state
    }
}

/// The display, as the rest of the program drives it.
pub struct DisplayDriver {
    state: DisplayState,
}

impl View for DisplayDriver {
    type V = DisplayView;

    closed spec fn view(&self) -> DisplayView {
        self.state@
    }
}

/// `color` at the given percentage of its brightness.
pub open spec fn scaled(color: RGB8, percent: u8) -> RGB8 {
    RGB8 {
        r: (color.r * percent / 100) as u8,
        g: (color.g * percent / 100) as u8,
        b: (color.b * percent / 100) as u8,
    }
}

/// Index of a pixel on the matrix part of the string.
///
/// Every panel is ten vertical serpentine columns of ten LEDs. The data line
/// enters at the last panel and runs left to right across it, then across the
/// middle one, then across the first. Even columns are wired bottom to top, odd
/// columns top to bottom.
pub open spec fn pixel_position(x: int, y: int) -> int {
    let column = (2 - x / 10) * 10 + x % 10;
    column * 10 + (if column % 2 == 0 {
        9 - y
    } else {
        y
    })
}

/// The column of the image that a matrix index belongs to.
pub open spec fn position_x(i: int) -> int {
    (2 - i / 100) * 10 + (i / 10) % 10
}

/// The row of the image that a matrix index belongs to.
pub open spec fn position_y(i: int) -> int {
    if (i / 10) % 2 == 0 {
        9 - i % 10
    } else {
        i % 10
    }
}

/// A bar over the panels, filling them one after the other: as many of the 30
/// columns are lit as the percentage comes to, rounded down.
pub open spec fn progress_image(percent: u8) -> Seq<u8> {
    Seq::new(
        PIXELS as nat,
        |i: int|
            if (i % MAJOR as int) < percent * MAJOR / 100 {
                MARQUEE_LEVEL
            } else {
                0u8
            },
    )
}

/// What the panels show: the progress of an update while there is one, else
/// the image.
pub open spec fn panels_show(d: DisplayView) -> Seq<u8> {
    match d.update {
        Some(percent) => progress_image(percent),
        None => d.image,
    }
}

/// Brightness of the status LED numbered `i` at the given tick, in percent. The
/// steps slide along the sacrificial LEDs, so that a run of them looks like a
/// chase and a single one breathes.
pub open spec fn status_percent(i: int, tick: int) -> u8 {
    STATUS_STEPS@[(8 + i - tick % 8) % 8]
}

/// The colours on the string: the status indicator, then the panels, in the
/// order of the wiring.
pub open spec fn strip(d: DisplayView, tick: int) -> Seq<RGB8> {
    Seq::new(
        STRIP_LEN as nat,
        |i: int|
            if i < SACRIFICIAL_LEDS {
                scaled(d.status_color, status_percent(i, tick))
            } else {
                let at = i - SACRIFICIAL_LEDS;
                let level = panels_show(d)[position_y(at) * MAJOR + position_x(at)];
                RGB8 { r: level, g: level, b: level }
            },
    )
}

impl DisplayDriver {
    /// A display that is not wired to anything yet.
    pub fn new_simulated() -> (display: DisplayDriver)
        ensures
            display@ == default_display(),
    {
        DisplayDriver { state: DisplayState::new_default() }
    }

    pub fn set_status_color(&mut self, color: RGB8)
        ensures
            final(self)@ == (DisplayView { status_color: color, ..old(self)@ }),
    {
        self.state.status_color = color;
    }

    pub fn set_image(&mut self, image: &Image)
        ensures
            final(self)@ == (DisplayView { image: image@, ..old(self)@ }),
    {
        self.state.image = *image;
    }

    /// The image last set.
    pub fn image(&self) -> (image: &Image)
        ensures
            image@ == self@.image,
    {
        &self.state.image
    }

    /// Snapshot the live settings. The direction is valid for the orientation.
    pub fn marquee_config(&self) -> (cfg: MarqueeConfig)
        ensures
            cfg@ == self@.settings.with_direction(self@.settings.direction),
            self@.settings.in_range() ==> cfg@ == self@.settings,
            panels::direction_fits(cfg@.orientation, cfg@.direction),
    {
        MarqueeConfig {
            text: self.state.marquee_text.clone(),
            speed_ms: self.state.marquee_speed_ms,
            orientation: self.state.orientation,
            direction: clamp_direction(self.state.orientation, self.state.direction),
            panel_margin: self.state.panel_margin,
            margin_applies_streams: self.state.margin_applies_streams,
        }
    }

    /// Overwrite the marquee text, cut off at the maximum length.
    pub fn set_marquee_text(&mut self, text: &str)
        ensures
            final(self)@ == (DisplayView {
                settings: old(self)@.settings.with_text(text@),
                ..old(self)@
            }),
    {
        self.state.marquee_text = truncate_chars(text, MARQUEE_TEXT_MAX);
    }

    /// Set the marquee speed as a millisecond delay, clamped to the valid range.
    pub fn set_marquee_speed_ms(&mut self, ms: u16)
        ensures
            final(self)@ == (DisplayView {
                settings: old(self)@.settings.with_speed(ms),
                ..old(self)@
            }),
    {
        self.state.marquee_speed_ms = clamp_speed_ms(ms);
    }

    /// Set the panel margin (dead units between panels), clamped to the maximum.
    pub fn set_panel_margin(&mut self, margin: u8)
        ensures
            final(self)@ == (DisplayView {
                settings: old(self)@.settings.with_margin(margin),
                ..old(self)@
            }),
    {
        self.state.panel_margin = clamp_margin(margin);
    }

    /// Set whether the panel margin also applies to incoming streams.
    pub fn set_margin_applies_streams(&mut self, applies: bool)
        ensures
            final(self)@ == (DisplayView {
                settings: old(self)@.settings.with_streams(applies),
                ..old(self)@
            }),
    {
        self.state.margin_applies_streams = applies;
    }

    /// Set the orientation and clamp the stored direction to remain valid.
    pub fn set_orientation(&mut self, orientation: u8)
        ensures
            final(self)@ == (DisplayView {
                settings: old(self)@.settings.with_orientation(orientation),
                ..old(self)@
            }),
    {
        let orientation: u8 = clamp_orientation(orientation);
        self.state.orientation = orientation;
        self.state.direction = clamp_direction(orientation, self.state.direction);
    }

    /// Set the scroll direction, clamped to the current orientation's axis.
    pub fn set_direction(&mut self, direction: u8)
        ensures
            final(self)@ == (DisplayView {
                settings: old(self)@.settings.with_direction(direction),
                ..old(self)@
            }),
    {
        self.state.direction = clamp_direction(self.state.orientation, direction);
    }

    pub fn set_wifi_test(&mut self, result: WifiTestResult)
        ensures
            final(self)@ == (DisplayView { wifi_test: result, ..old(self)@ }),
    {
        self.state.wifi_test = result;
    }

    pub fn wifi_test(&self) -> (result: WifiTestResult)
        ensures
            result == self@.wifi_test,
    {
        self.state.wifi_test
    }

    /// Start showing the progress of a firmware upload on the panels.
    pub fn begin_update(&mut self)
        ensures
            final(self)@ == (DisplayView { update: Some(0), ..old(self)@ }),
    {
        self.state.update = Some(0);
    }

    /// Show how much of a firmware upload has been written, in percent.
    pub fn set_update_progress(&mut self, percent: u8)
        ensures
            final(self)@ == (DisplayView { update: Some(percent), ..old(self)@ }),
    {
        self.state.update = Some(percent);
    }

    /// Go back to showing the image.
    pub fn end_update(&mut self)
        ensures
            final(self)@ == (DisplayView { update: None, ..old(self)@ }),
    {
        self.state.update = None;
    }

    /// How much of a firmware upload has been written, if one is running.
    pub fn update_progress(&self) -> (percent: Option<u8>)
        ensures
            percent == self@.update,
    {
        self.state.update
    }

    /// A colour at the given percentage of its brightness.
    pub fn scale_color(color: RGB8, percent: u8) -> (out: RGB8)
        ensures
            out == scaled(color, percent),
            percent <= 100 ==> out.r <= color.r && out.g <= color.g && out.b <= color.b,
    {
        assert(forall|c: u8| percent <= 100 ==> 0 <= #[trigger] (c * percent) / 100 <= c)
            by (nonlinear_arith);
        assert(forall|c: u8| 0 <= #[trigger] (c * percent) <= 65025) by (nonlinear_arith);
        RGB8::new(
            ((color.r as u16 * percent as u16) / 100) as u8,
            ((color.g as u16 * percent as u16) / 100) as u8,
            ((color.b as u16 * percent as u16) / 100) as u8,
        )
    }

    /// Map a pixel of the image to its index on the matrix part of the string
    /// (before the sacrificial LEDs are added).
    pub fn get_pixel_index(lx: usize, ly: usize) -> (index: Option<usize>)
        ensures
            match index {
                Some(i) => lx < MAJOR && ly < MINOR && i == pixel_position(lx as int, ly as int),
                None => lx >= MAJOR || ly >= MINOR,
            },
    {
        if lx >= MAJOR || ly >= MINOR {
            return None;
        }
        let panel: usize = lx / 10;
        let column: usize = (2 - panel) * 10 + lx % 10;
        let offset: usize = if column % 2 == 0 {
            9 - ly
        } else {
            ly
        };
        Some(column * 10 + offset)
    }

    /// What the panels show.
    pub fn shown_image(&self) -> (image: Image)
        ensures
            image@ == panels_show(self@),
    {
        match self.state.update {
            Some(percent) => {
                let lit: usize = percent as usize * MAJOR / 100;
                let mut image: Image = [0u8; 300];
                let mut i: usize = 0;
                while i < PIXELS
                    invariant
                        i <= PIXELS,
                        lit == percent * MAJOR / 100,
                        forall|j: int|
                            0 <= j < i ==> image@[j] == progress_image(percent)[j],
                    decreases PIXELS - i,
                {
                    if i % MAJOR < lit {
                        image[i] = MARQUEE_LEVEL;
                    } else {
                        image[i] = 0;
                    }
                    i = i + 1;
                }
                assert(image@ =~= progress_image(percent));
                image
            },
            None => self.state.image,
        }
    }

    /// The colours to send down the string at the given tick.
    pub fn compose_strip(&self, tick: usize) -> (pixels: Vec<RGB8>)
        ensures
            pixels@ == strip(self@, tick as int),
            pixels@.len() == 301,
            forall|x: int, y: int| #[trigger] lamps_show_at(pixels@, self@, x, y),
            status_shows(pixels@, self@.status_color, tick as int),
    {
        proof {
            assert forall|x: int, y: int| #[trigger]
                lamps_show_at(strip(self@, tick as int), self@, x, y) by {
                the_string_carries_what_is_shown(self@, tick as int, x, y);
            }
            the_first_led_breathes_in_the_status_color(self@, tick as int);
        }
        let image: Image = self.shown_image();
        let mut pixels: Vec<RGB8> = Vec::with_capacity(STRIP_LEN);
        let mut i: usize = 0;
        while i < STRIP_LEN
            invariant
                i == pixels@.len(),
                i <= STRIP_LEN,
                forall|j: int|
                    0 <= j < i && j < SACRIFICIAL_LEDS ==> pixels@[j] == strip(
                        self@,
                        tick as int,
                    )[j],
            decreases STRIP_LEN - i,
        {
            if i < SACRIFICIAL_LEDS {
                let phase: usize = (8 + i - tick % 8) % 8;
                pixels.push(Self::scale_color(self.state.status_color, STATUS_STEPS[phase]));
            } else {
                pixels.push(RGB8::new(0, 0, 0));
            }
            i = i + 1;
        }
        let mut y: usize = 0;
        while y < MINOR
            invariant
                y <= MINOR,
                image@ == panels_show(self@),
                pixels@.len() == STRIP_LEN,
                forall|j: int|
                    0 <= j < SACRIFICIAL_LEDS ==> pixels@[j] == strip(self@, tick as int)[j],
                forall|j: int|
                    SACRIFICIAL_LEDS <= j < STRIP_LEN && position_y(j - SACRIFICIAL_LEDS) < y
                        ==> #[trigger] pixels@[j] == strip(self@, tick as int)[j],
            decreases MINOR - y,
        {
            let mut x: usize = 0;
            while x < MAJOR
                invariant
                    y < MINOR,
                    x <= MAJOR,
                    image@ == panels_show(self@),
                    pixels@.len() == STRIP_LEN,
                    forall|j: int|
                        0 <= j < SACRIFICIAL_LEDS ==> pixels@[j] == strip(self@, tick as int)[j],
                    forall|j: int|
                        SACRIFICIAL_LEDS <= j < STRIP_LEN && (position_y(j - SACRIFICIAL_LEDS) < y
                            || (position_y(j - SACRIFICIAL_LEDS) == y && position_x(
                            j - SACRIFICIAL_LEDS,
                        ) < x)) ==> #[trigger] pixels@[j] == strip(self@, tick as int)[j],
                decreases MAJOR - x,
            {
                if let Some(index) = Self::get_pixel_index(x, y) {
                    let level: u8 = image[y * MAJOR + x];
                    proof {
                        pixel_map_is_a_bijection(x as int, y as int, index as int);
                        assert forall|j: int|
                            SACRIFICIAL_LEDS <= j < STRIP_LEN && j != SACRIFICIAL_LEDS
                                + index implies #[trigger] position_x(j - SACRIFICIAL_LEDS) != x
                            || position_y(j - SACRIFICIAL_LEDS) != y by {
                            pixel_map_is_a_bijection(x as int, y as int, j - SACRIFICIAL_LEDS);
                        }
                    }
                    pixels.set(SACRIFICIAL_LEDS + index, RGB8::new(level, level, level));
                }
                x = x + 1;
            }
            y = y + 1;
        }
        assert(pixels@ =~= strip(self@, tick as int));
        pixels
    }
}

/// Every pixel of the image has its own LED and every LED of the matrix its own
/// pixel.
pub proof fn pixel_map_is_a_bijection(x: int, y: int, i: int)
    ensures
        0 <= x < MAJOR && 0 <= y < MINOR ==> {
            &&& 0 <= pixel_position(x, y) < PIXELS
            &&& position_x(pixel_position(x, y)) == x
            &&& position_y(pixel_position(x, y)) == y
        },
        0 <= i < PIXELS ==> {
            &&& 0 <= position_x(i) < MAJOR
            &&& 0 <= position_y(i) < MINOR
            &&& pixel_position(position_x(i), position_y(i)) == i
        },
{
}

/// Every panel is a block of a hundred LEDs, the last panel first, with its
/// columns in order from left to right.
pub proof fn panels_are_contiguous_blocks(x: int, y: int)
    requires
        0 <= x < MAJOR,
        0 <= y < MINOR,
    ensures
        pixel_position(x, y) / 100 == 2 - x / 10,
        pixel_position(x, y) / 10 == (2 - x / 10) * 10 + x % 10,
{
}

/// One pixel down is one LED along the string, against the direction of the
/// string in even columns and with it in odd ones.
pub proof fn one_row_is_one_led(x: int, y: int)
    requires
        0 <= x < MAJOR,
        0 <= y < MINOR - 1,
    ensures
        pixel_position(x, y + 1) - pixel_position(x, y) == (if (pixel_position(x, y) / 10) % 2
            == 0 {
            -1int
        } else {
            1int
        }),
{
}

/// What is sent to the LED of column `x` of row `y`: white light at the level
/// of the image, or, while firmware is being written, at 100 in the columns up
/// to as many of the 30 as the percentage comes to, and none in the others.
///
/// The string has one LED ahead of the lamps. It then runs through the panel on
/// the right first and the one on the left last, up and down its columns from
/// left to right: up the first column, down the next.
pub open spec fn lamps_show_at(pixels: Seq<RGB8>, d: DisplayView, x: int, y: int) -> bool {
    let column = (2 - x / 10) * 10 + x % 10;
    let led = 1 + column * 10 + if column % 2 == 0 {
        9 - y
    } else {
        y
    };
    let level = match d.update {
        Some(percent) => if x * 100 + 100 <= percent * 30 {
            100u8
        } else {
            0u8
        },
        None => d.image[y * 30 + x],
    };
    0 <= x < 30 && 0 <= y < 10 ==> pixels[led] == (RGB8 { r: level, g: level, b: level })
}

/// The lamps show the progress of an upload while there is one, whatever the
/// image holds, and the image while there is none.
pub proof fn the_string_carries_what_is_shown(d: DisplayView, tick: int, x: int, y: int)
    ensures
        lamps_show_at(strip(d, tick), d, x, y),
{
    if 0 <= x < 30 && 0 <= y < 10 {
        let at = pixel_position(x, y);
        pixel_map_is_a_bijection(x, y, at);
        assert((y * 30 + x) % 30 == x);
        match d.update {
            Some(percent) => {
                assert(x * 100 + 100 <= percent * 30 <==> x < percent * 30 / 100);
            },
            None => {},
        }
    }
}

/// The LED ahead of the lamps shows the status colour, at a brightness that
/// falls from full to an eighth in eight ticks and starts again.
pub open spec fn status_shows(pixels: Seq<RGB8>, color: RGB8, tick: int) -> bool {
    let percent: int = if tick % 8 == 0 {
        12
    } else if tick % 8 == 1 {
        100
    } else if tick % 8 == 2 {
        75
    } else if tick % 8 == 3 {
        56
    } else if tick % 8 == 4 {
        42
    } else if tick % 8 == 5 {
        31
    } else if tick % 8 == 6 {
        24
    } else {
        18
    };
    &&& pixels[0].r == color.r * percent / 100
    &&& pixels[0].g == color.g * percent / 100
    &&& pixels[0].b == color.b * percent / 100
}

/// The LED ahead of the lamps shows the status colour and nothing else.
pub proof fn the_first_led_breathes_in_the_status_color(d: DisplayView, tick: int)
    requires
        0 <= tick,
    ensures
        status_shows(strip(d, tick), d.status_color, tick),
{
    let percent = status_percent(0, tick);
    assert(percent <= 100);
    let c = d.status_color;
    assert(0 <= c.r * percent / 100 <= 255) by (nonlinear_arith)
        requires
            0 <= percent <= 100,
            0 <= c.r <= 255,
    ;
    assert(0 <= c.g * percent / 100 <= 255) by (nonlinear_arith)
        requires
            0 <= percent <= 100,
            0 <= c.g <= 255,
    ;
    assert(0 <= c.b * percent / 100 <= 255) by (nonlinear_arith)
        requires
            0 <= percent <= 100,
            0 <= c.b <= 255,
    ;
}

/// The progress bar is dark at the start and full at the end, never goes back,
/// and starts on a panel only when the one before it is full.
pub proof fn progress_fills_the_panels_in_order(p: u8, q: u8, i: int, j: int)
    requires
        p <= q <= 100,
        0 <= i < PIXELS,
        0 <= j < PIXELS,
    ensures
        progress_image(0)[i] == 0,
        progress_image(100)[i] == MARQUEE_LEVEL,
        progress_image(p)[i] <= progress_image(q)[i],
        (i % MAJOR as int) / 10 < (j % MAJOR as int) / 10 && progress_image(p)[j] != 0
            ==> progress_image(p)[i] == MARQUEE_LEVEL,
{
}

/// The defaults are within range.
pub proof fn defaults_are_in_range()
    ensures
        default_settings().in_range(),
{
    reveal_strlit("CAMBRIDGE HACKSPACE :)");
}

/// Whatever the settings were and whatever is asked for, a setting is within
/// range once it has been set, and setting one never puts another out of range.
pub proof fn setters_keep_settings_in_range(
    s: Settings,
    t: Seq<char>,
    ms: u16,
    code: u8,
    applies: bool,
)
    requires
        s.in_range(),
    ensures
        s.with_text(t).in_range(),
        s.with_speed(ms).in_range(),
        s.with_orientation(code).in_range(),
        s.with_direction(code).in_range(),
        s.with_margin(code).in_range(),
        s.with_streams(applies).in_range(),
{
}

/// A setting is what it was set to, as long as that is possible, and setting it
/// leaves the others alone. A text is cut off at 64 characters, a delay is kept
/// between 20 and 500 milliseconds and a margin at 20 units; a code that is no
/// mount is the upright horizontal one. A new mount keeps the direction if it can
/// be scrolled in.
pub proof fn a_setting_is_what_it_was_set_to(
    s: Settings,
    t: Seq<char>,
    ms: u16,
    code: u8,
    applies: bool,
)
    ensures
        s.with_text(t) == (Settings {
            text: if t.len() <= 64 {
                t
            } else {
                t.take(64)
            },
            ..s
        }),
        s.with_speed(ms) == (Settings {
            speed_ms: if ms < 20 {
                20
            } else if ms > 500 {
                500
            } else {
                ms
            },
            ..s
        }),
        s.with_margin(code) == (Settings {
            panel_margin: if code > 20 {
                20
            } else {
                code
            },
            ..s
        }),
        s.with_streams(applies) == (Settings { margin_applies_streams: applies, ..s }),
        s.with_direction(code) == (Settings {
            direction: if s.orientation == 1 || s.orientation == 3 {
                if code == 3 {
                    3
                } else {
                    2
                }
            } else {
                if code == 0 {
                    0
                } else {
                    1
                }
            },
            ..s
        }),
        s.with_orientation(code) == (Settings {
            orientation: if code > 3 {
                0
            } else {
                code
            },
            direction: if code == 1 || code == 3 {
                if s.direction == 3 {
                    3
                } else {
                    2
                }
            } else {
                if s.direction == 0 {
                    0
                } else {
                    1
                }
            },
            ..s
        }),
{
}

/// A colour at a percentage of its brightness has each of its channels at that
/// percentage, rounded down.
pub proof fn dimming_is_the_same_for_every_channel(color: RGB8, percent: u8)
    requires
        percent <= 100,
    ensures
        ({
            let dim = scaled(color, percent);
            &&& dim.r * 100 <= color.r * percent < (dim.r + 1) * 100
            &&& dim.g * 100 <= color.g * percent < (dim.g + 1) * 100
            &&& dim.b * 100 <= color.b * percent < (dim.b + 1) * 100
        }),
{
    assert forall|c: u8| 0 <= #[trigger] (c * percent) / 100 <= 255 by {
        assert(0 <= c * percent <= 25500) by (nonlinear_arith)
            requires
                0 <= c <= 255,
                0 <= percent <= 100,
        ;
    }
    assert(0 <= (color.r * percent) / 100 <= 255);
    assert(0 <= (color.g * percent) / 100 <= 255);
    assert(0 <= (color.b * percent) / 100 <= 255);
}

/// A light comes up dark, idle and upright, with a greeting that scrolls from
/// right to left, ten pixels a second and without gaps.
pub proof fn a_light_comes_up_with_its_defaults(i: int)
    requires
        0 <= i < 300,
    ensures
        default_display().image.len() == 300,
        default_display().image[i] == 0,
        default_display().update is None,
        default_display().wifi_test == WifiTestResult::Idle,
        default_display().settings == (Settings {
            text: "CAMBRIDGE HACKSPACE :)"@,
            speed_ms: 100,
            orientation: 0,
            direction: 1,
            panel_margin: 0,
            margin_applies_streams: false,
        }),
{
}

} // verus!
