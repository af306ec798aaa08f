//! The animation loop: streamed frames, the marquee when nothing is streamed,
//! and the slow change of the status colour.
//!
//! Times are nanoseconds on a clock that does not run backwards.

use vstd::prelude::*;
use vstd::slice::slice_subrange;

use crate::display;
use crate::display::{DisplayDriver, RGB8};
use crate::frame;
use crate::frame::{apply_orientation, stream_frame_contiguous, stream_frame_with_gaps, Image};
use crate::marquee;
use crate::marquee::{marquee_span, render_marquee};

verus! {

/// Length of the header of a frame packet. It is not parsed.
pub const DDP_HEADER: usize = 10;

/// The most of a packet that is received.
pub const PACKET_MAX: usize = 1500;

/// How long after a frame the marquee stays away.
pub const STREAM_TIMEOUT_NS: u64 = 5_000_000_000;

/// How long a status colour stays.
pub const COLOR_NS: u64 = 1_000_000_000;

pub const NS_PER_MS: u64 = 1_000_000;

/// More than `wait` has passed between `last` and `now`.
pub open spec fn passed(last: u64, now: u64, wait: int) -> bool {
    now - last > wait
}

fn has_passed(last: u64, now: u64, wait: u64) -> (yes: bool)
    ensures
        yes == passed(last, now, wait as int),
{
    now > last && now - last > wait
}

/// Where the marquee stands: how many steps it has scrolled, and when it took
/// the last one.
pub struct MarqueeClock {
    offset: usize,
    last: u64,
}

/// Where the marquee stands, as values.
pub struct ClockView {
    pub offset: nat,
    pub last: u64,
}

impl View for MarqueeClock {
    type V = ClockView;

    closed spec fn view(&self) -> ClockView {
        ClockView { offset: self.offset as nat, last: self.last }
    }
}

/// The live settings, as they are drawn.
pub open spec fn live(d: display::DisplayView) -> display::Settings {
    d.settings.with_direction(d.settings.direction)
}

/// A step of the marquee is due.
pub open spec fn step_due(clock: ClockView, d: display::DisplayView, now: u64) -> bool {
    passed(clock.last, now, live(d).speed_ms * NS_PER_MS)
}

/// The marquee after a step.
pub open spec fn clock_after_step(
    clock: ClockView,
    d: display::DisplayView,
    now: u64,
) -> ClockView {
    ClockView {
        offset: marquee::next_offset(live(d).text, live(d).orientation, clock.offset as int) as nat,
        last: now,
    }
}

/// What the marquee shows where it stands.
pub open spec fn clock_image(clock: ClockView, d: display::DisplayView) -> Seq<u8> {
    marquee::marquee_image(
        live(d).text,
        clock.offset as int,
        live(d).orientation,
        live(d).direction,
        live(d).panel_margin,
    )
}

impl MarqueeClock {
    /// A marquee that starts to scroll now.
    pub fn start(now: u64) -> (clock: MarqueeClock)
        ensures
            clock@ == (ClockView { offset: 0, last: now }),
    {
        MarqueeClock { offset: 0, last: now }
    }

    /// Count the delay of the next step from now.
    pub fn hold(&mut self, now: u64)
        ensures
            final(self)@ == (ClockView { last: now, ..old(self)@ }),
    {
        self.last = now;
    }

    /// Advance the marquee one step if enough time has passed. The live settings
    /// are taken anew each time, so that changes to them take effect.
    pub fn marquee_tick(&mut self, display: &mut DisplayDriver, now: u64)
        ensures
            final(self)@ == (if step_due(old(self)@, old(display)@, now) {
                clock_after_step(old(self)@, old(display)@, now)
            } else {
                old(self)@
            }),
            final(display)@ == (if step_due(old(self)@, old(display)@, now) {
                display::DisplayView {
                    image: clock_image(old(self)@, old(display)@),
                    ..old(display)@
                }
            } else {
                old(display)@
            }),
            ({
                let set = old(display)@.settings;
                if now - old(self)@.last > set.speed_ms * 1_000_000 {
                    &&& final(self)@.last == now
                    &&& final(display)@.image == marquee::marquee_image(
                        set.text,
                        old(self)@.offset as int,
                        set.orientation,
                        set.direction,
                        set.panel_margin,
                    )
                } else {
                    final(self)@ == old(self)@ && final(display)@ == old(display)@
                }
            }),
    {
        proof {
            a_step_waits_for_the_delay_that_is_set(self@, display@, now);
            a_step_shows_the_text_where_it_stands(self@, display@);
        }
        let cfg = display.marquee_config();
        if !has_passed(self.last, now, cfg.speed_ms as u64 * NS_PER_MS) {
            return;
        }
        let mut img: Image = [0u8; 300];
        let span: usize = marquee_span(cfg.text.as_str(), cfg.orientation);
        render_marquee(
            cfg.text.as_str(),
            self.offset,
            cfg.orientation,
            cfg.direction,
            cfg.panel_margin,
            &mut img,
        );
        display.set_image(&img);
        self.offset = if span > 0 {
            let at: usize = self.offset % span;
            proof {
                vstd::arithmetic::div_mod::lemma_add_mod_noop_right(
                    1,
                    self.offset as int,
                    span as int,
                );
            }
            if at + 1 < span {
                proof {
                    vstd::arithmetic::div_mod::lemma_small_mod((at + 1) as nat, span as nat);
                }
                at + 1
            } else {
                proof {
                    vstd::arithmetic::div_mod::lemma_mod_self_0(span as int);
                }
                0
            }
        } else {
            0
        };
        self.last = now;
    }

    /// The same on the setup screen, where the marquee stands still while
    /// firmware is being written: the panels show the progress instead.
    pub fn setup_tick(&mut self, display: &mut DisplayDriver, now: u64)
        ensures
            ({
                let step = old(display)@.update is None && step_due(
                    old(self)@,
                    old(display)@,
                    now,
                );
                &&& final(self)@ == (if step {
                    clock_after_step(old(self)@, old(display)@, now)
                } else {
                    old(self)@
                })
                &&& final(display)@ == (if step {
                    display::DisplayView {
                        image: clock_image(old(self)@, old(display)@),
                        ..old(display)@
                    }
                } else {
                    old(display)@
                })
            }),
            ({
                let set = old(display)@.settings;
                if old(display)@.update is None && now - old(self)@.last > set.speed_ms
                    * 1_000_000 {
                    &&& final(self)@.last == now
                    &&& final(display)@.image == marquee::marquee_image(
                        set.text,
                        old(self)@.offset as int,
                        set.orientation,
                        set.direction,
                        set.panel_margin,
                    )
                } else {
                    final(self)@ == old(self)@ && final(display)@ == old(display)@
                }
            }),
    {
        if display.update_progress().is_none() {
            self.marquee_tick(display, now);
        }
    }
}

/// The image that a streamed frame makes under the given settings. When the
/// margin applies to streams, the sender drew into the larger canvas that holds
/// the gaps, and they are dropped; otherwise the frame is one contiguous area.
pub open spec fn stream_image(payload: Seq<u8>, cfg: display::Settings) -> Seq<u8> {
    frame::oriented(
        if cfg.margin_applies_streams && cfg.panel_margin > 0 {
            frame::gapped_frame(payload, cfg.orientation, cfg.panel_margin)
        } else {
            frame::contiguous_frame(payload)
        },
        cfg.orientation,
    )
}

/// The status colours in turn: red, blue, yellow, green.
pub open spec fn status_color(turn: int) -> RGB8 {
    if turn == 0 {
        RGB8 { r: 195, g: 78, b: 75 }
    } else if turn == 1 {
        RGB8 { r: 61, g: 132, b: 175 }
    } else if turn == 2 {
        RGB8 { r: 216, g: 163, b: 0 }
    } else {
        RGB8 { r: 137, g: 177, b: 8 }
    }
}

/// Where the animation stands.
pub struct Animation {
    marquee: MarqueeClock,
    quiet_until: u64,
    turn: u8,
    last_color: u64,
}

/// Where the animation stands, as values: the marquee, until when it stays
/// away for the sake of a stream, whose turn it is of the status colours, and
/// when the last one was set.
pub struct AnimationView {
    pub marquee: ClockView,
    pub quiet_until: u64,
    pub turn: u8,
    pub last_color: u64,
}

impl View for Animation {
    type V = AnimationView;

    closed spec fn view(&self) -> AnimationView {
        AnimationView {
            marquee: self.marquee@,
            quiet_until: self.quiet_until,
            turn: self.turn,
            last_color: self.last_color,
        }
    }
}

impl AnimationView {
    /// One of the four colours has its turn.
    pub open spec fn well_formed(self) -> bool {
        self.turn < 4
    }
}

/// The end of the time for which a frame keeps the marquee away.
pub open spec fn stream_end(now: u64) -> u64 {
    if now + STREAM_TIMEOUT_NS <= u64::MAX {
        (now + STREAM_TIMEOUT_NS) as u64
    } else {
        u64::MAX
    }
}

/// The marquee takes a step at this tick: nothing has been streamed for a while,
/// and its delay has passed.
pub open spec fn scrolls(a: AnimationView, d: display::DisplayView, now: u64) -> bool {
    now > a.quiet_until && step_due(a.marquee, d, now)
}

/// The status colour changes at this tick.
pub open spec fn recolors(a: AnimationView, now: u64) -> bool {
    passed(a.last_color, now, COLOR_NS as int)
}

impl Animation {
    /// An animation that starts now, with nothing streamed yet.
    pub fn start(now: u64) -> (a: Animation)
        ensures
            a@.well_formed(),
            a@ == (AnimationView {
                marquee: ClockView { offset: 0, last: now },
                quiet_until: now,
                turn: 0,
                last_color: now,
            }),
    {
        Animation { marquee: MarqueeClock::start(now), quiet_until: now, turn: 0, last_color: now }
    }

    /// Take a packet. Everything after its header is the frame: a short frame is
    /// filled up with black and a long one cut off. A packet that is no longer
    /// than a header is ignored.
    pub fn packet(&mut self, display: &mut DisplayDriver, packet: &[u8], now: u64)
        requires
            old(self)@.well_formed(),
        ensures
            final(self)@.well_formed(),
            packet@.len() <= DDP_HEADER ==> final(self)@ == old(self)@ && final(display)@ == old(
                display,
            )@,
            packet@.len() > DDP_HEADER ==> {
                &&& final(self)@ == (AnimationView { quiet_until: stream_end(now), ..old(self)@ })
                &&& final(display)@ == (display::DisplayView {
                    image: stream_image(packet@.skip(DDP_HEADER as int), live(old(display)@)),
                    ..old(display)@
                })
            },
            packet@.len() > 10 ==> forall|x: int, y: int| #[trigger]
                frame_is_seen_at(
                    final(display)@.image,
                    packet@.skip(10),
                    old(display)@.settings,
                    x,
                    y,
                ),
            packet@.len() > 10 && now <= u64::MAX - 5_000_000_000 ==> final(self)@.quiet_until
                == now + 5_000_000_000,
    {
        proof {
            assert forall|x: int, y: int| #[trigger]
                frame_is_seen_at(
                    stream_image(packet@.skip(10), live(display@)),
                    packet@.skip(10),
                    display@.settings,
                    x,
                    y,
                ) by {
                a_frame_is_seen_as_it_was_drawn(packet@.skip(10), live(display@), x, y);
            }
        }
        if packet.len() > DDP_HEADER {
            let payload = slice_subrange(packet, DDP_HEADER, packet.len());
            assert(payload@ =~= packet@.skip(DDP_HEADER as int));
            let cfg = display.marquee_config();
            let mut img: Image = if cfg.margin_applies_streams && cfg.panel_margin > 0 {
                stream_frame_with_gaps(payload, cfg.orientation, cfg.panel_margin)
            } else {
                stream_frame_contiguous(payload)
            };
            apply_orientation(&mut img, cfg.orientation);
            display.set_image(&img);
            self.quiet_until = if now <= u64::MAX - STREAM_TIMEOUT_NS {
                now + STREAM_TIMEOUT_NS
            } else {
                u64::MAX
            };
        }
    }

    /// Let the time pass: scroll the marquee unless something is being streamed,
    /// and change the status colour when its turn is over.
    pub fn tick(&mut self, display: &mut DisplayDriver, now: u64)
        requires
            old(self)@.well_formed(),
        ensures
            final(self)@.well_formed(),
            ({
                let a = old(self)@;
                let d = old(display)@;
                &&& final(self)@ == (AnimationView {
                    marquee: if scrolls(a, d, now) {
                        clock_after_step(a.marquee, d, now)
                    } else {
                        a.marquee
                    },
                    quiet_until: a.quiet_until,
                    turn: if recolors(a, now) {
                        (a.turn + 1) as u8 % 4
                    } else {
                        a.turn
                    },
                    last_color: if recolors(a, now) {
                        now
                    } else {
                        a.last_color
                    },
                })
                &&& final(display)@ == (display::DisplayView {
                    image: if scrolls(a, d, now) {
                        clock_image(a.marquee, d)
                    } else {
                        d.image
                    },
                    status_color: if recolors(a, now) {
                        status_color(a.turn as int)
                    } else {
                        d.status_color
                    },
                    ..d
                })
            }),
            ({
                let a = old(self)@;
                let set = old(display)@.settings;
                if now > a.quiet_until && now - a.marquee.last > set.speed_ms * 1_000_000 {
                    &&& final(self)@.marquee.last == now
                    &&& final(display)@.image == marquee::marquee_image(
                        set.text,
                        a.marquee.offset as int,
                        set.orientation,
                        set.direction,
                        set.panel_margin,
                    )
                } else {
                    &&& final(self)@.marquee == a.marquee
                    &&& final(display)@.image == old(display)@.image
                }
            }),
            now - old(self)@.last_color > 1_000_000_000 ==> {
                &&& final(self)@.last_color == now
                &&& old(self)@.turn == 0 ==> final(self)@.turn == 1 && final(display)@.status_color
                    == (RGB8 { r: 195, g: 78, b: 75 })
                &&& old(self)@.turn == 1 ==> final(self)@.turn == 2 && final(display)@.status_color
                    == (RGB8 { r: 61, g: 132, b: 175 })
                &&& old(self)@.turn == 2 ==> final(self)@.turn == 3 && final(display)@.status_color
                    == (RGB8 { r: 216, g: 163, b: 0 })
                &&& old(self)@.turn == 3 ==> final(self)@.turn == 0 && final(display)@.status_color
                    == (RGB8 { r: 137, g: 177, b: 8 })
            },
            now - old(self)@.last_color <= 1_000_000_000 ==> final(self)@.turn == old(self)@.turn
                && final(display)@.status_color == old(display)@.status_color,
    {
        proof {
            a_step_shows_the_text_where_it_stands(self.marquee@, display@);
        }
        if now > self.quiet_until {
            self.marquee.marquee_tick(display, now);
        }
        if has_passed(self.last_color, now, COLOR_NS) {
            let color = if self.turn == 0 {
                RGB8::new(195, 78, 75)
            } else if self.turn == 1 {
                RGB8::new(61, 132, 175)
            } else if self.turn == 2 {
                RGB8::new(216, 163, 0)
            } else {
                RGB8::new(137, 177, 8)
            };
            display.set_status_color(color);
            self.turn = (self.turn + 1) % 4;
            self.last_color = now;
        }
    }
}

/// A step leaves the offset inside the span of the text, if there is one.
pub proof fn a_step_stays_inside_the_span(clock: ClockView, d: display::DisplayView, now: u64)
    ensures
        ({
            let span = marquee::span(live(d).text, live(d).orientation);
            let offset = clock_after_step(clock, d, now).offset;
            if span > 0 {
                offset < span
            } else {
                offset == 0
            }
        }),
{
    let span = marquee::span(live(d).text, live(d).orientation);
    if span > 0 {
        vstd::arithmetic::div_mod::lemma_mod_bound(clock.offset as int + 1, span);
    }
}

/// A frame keeps the marquee away for the whole timeout, however often time is
/// looked at in between.
pub proof fn a_frame_keeps_the_marquee_away(
    a: AnimationView,
    d: display::DisplayView,
    arrived: u64,
    now: u64,
)
    requires
        a.quiet_until == stream_end(arrived),
        now <= arrived + STREAM_TIMEOUT_NS,
    ensures
        !scrolls(a, d, now),
{
}

/// Until something is streamed the marquee is never held back: it takes a step
/// whenever its delay has passed.
pub proof fn without_frames_the_marquee_runs(
    a: AnimationView,
    d: display::DisplayView,
    now: u64,
)
    requires
        a.quiet_until <= a.marquee.last,
    ensures
        scrolls(a, d, now) == step_due(a.marquee, d, now),
{
    assert(live(d).speed_ms * NS_PER_MS >= 0) by (nonlinear_arith);
}

/// What the viewer of a mounted light sees of a streamed frame in column `x` of
/// row `y`: the byte that the sender put there, and black where the frame has
/// ended.
///
/// The sender's picture is 30 wide and 10 tall for a horizontal mount, 10 wide
/// and 30 tall for a vertical one, row by row. Where the margin applies to
/// streams, it is longer by the dead units between the panels, and those are
/// passed over.
pub open spec fn frame_is_seen_at(
    img: Seq<u8>,
    payload: Seq<u8>,
    set: display::Settings,
    x: int,
    y: int,
) -> bool {
    let gap = if set.margin_applies_streams {
        set.panel_margin as int
    } else {
        0
    };
    if set.orientation == 1 || set.orientation == 3 {
        let sent = (y + (y / 10) * gap) * 10 + x;
        0 <= x < 10 && 0 <= y < 30 ==> img[if set.orientation == 1 {
            x * 30 + (29 - y)
        } else {
            (9 - x) * 30 + y
        }] == if sent < payload.len() {
            payload[sent]
        } else {
            0
        }
    } else {
        let sent = y * (30 + 2 * gap) + x + (x / 10) * gap;
        0 <= x < 30 && 0 <= y < 10 ==> img[if set.orientation == 2 {
            (9 - y) * 30 + (29 - x)
        } else {
            y * 30 + x
        }] == if sent < payload.len() {
            payload[sent]
        } else {
            0
        }
    }
}

/// On every mount, with gaps and without, the viewer of a streamed frame sees
/// the frame as it was drawn.
pub proof fn a_frame_is_seen_as_it_was_drawn(
    payload: Seq<u8>,
    set: display::Settings,
    x: int,
    y: int,
)
    ensures
        frame_is_seen_at(stream_image(payload, set), payload, set, x, y),
{
    let gapped = set.margin_applies_streams && set.panel_margin > 0;
    let gap = if set.margin_applies_streams {
        set.panel_margin as int
    } else {
        0
    };
    let src = if gapped {
        frame::gapped_frame(payload, set.orientation, set.panel_margin)
    } else {
        frame::contiguous_frame(payload)
    };
    if set.orientation == 1 || set.orientation == 3 {
        if 0 <= x < 10 && 0 <= y < 30 {
            frame::every_mount_shows_the_picture_upright(src, set.orientation, x, y);
            assert((y * 10 + x) / 10 == y && (y * 10 + x) % 10 == x);
            assert((y / 10) * (10 + gap) + y % 10 == y + (y / 10) * gap) by (nonlinear_arith);
            assert(gap == 0 ==> (y / 10) * gap == 0);
        }
    } else {
        if 0 <= x < 30 && 0 <= y < 10 {
            frame::every_mount_shows_the_picture_upright(src, set.orientation, x, y);
            assert((y * 30 + x) / 30 == y && (y * 30 + x) % 30 == x);
            assert((x / 10) * (10 + gap) + x % 10 == x + (x / 10) * gap) by (nonlinear_arith);
            assert(gap == 0 ==> (x / 10) * gap == 0 && y * (30 + 2 * gap) == y * 30);
        }
    }
}

/// The marquee takes a step once more time has passed since the last one than
/// the delay that is set, in milliseconds, and no sooner.
pub proof fn a_step_waits_for_the_delay_that_is_set(
    clock: ClockView,
    d: display::DisplayView,
    now: u64,
)
    ensures
        step_due(clock, d, now) <==> now - clock.last > d.settings.speed_ms * 1_000_000,
{
}

/// With nothing streamed, a shorter delay makes the marquee step sooner: just
/// after the shorter of two delays the one light steps and the other does not.
pub proof fn a_shorter_delay_steps_sooner(
    a: AnimationView,
    fast: display::DisplayView,
    slow: display::DisplayView,
    now: u64,
)
    requires
        fast.settings.speed_ms < slow.settings.speed_ms,
        now == a.marquee.last + fast.settings.speed_ms * 1_000_000 + 1,
        a.quiet_until < now,
    ensures
        scrolls(a, fast, now),
        !scrolls(a, slow, now),
{
    assert(fast.settings.speed_ms * 1_000_000 + 1 <= slow.settings.speed_ms * 1_000_000);
}

/// A step shows the text that is set, the way it is set, where the marquee
/// stands.
pub proof fn a_step_shows_the_text_where_it_stands(clock: ClockView, d: display::DisplayView)
    ensures
        clock_image(clock, d) == marquee::marquee_image(
            d.settings.text,
            clock.offset as int,
            d.settings.orientation,
            d.settings.direction,
            d.settings.panel_margin,
        ),
{
    marquee::a_stray_direction_is_clamped(
        d.settings.text,
        clock.offset as int,
        d.settings.orientation,
        d.settings.direction,
        d.settings.panel_margin,
    );
}

/// Every step moves the marquee on by one: what it shows next is what it would
/// show one step further on, as long as the text and the mount stay.
pub proof fn a_step_moves_the_marquee_on_by_one(
    clock: ClockView,
    d: display::DisplayView,
    now: u64,
)
    ensures
        clock_image(clock_after_step(clock, d, now), d) == marquee::marquee_image(
            d.settings.text,
            clock.offset as int + 1,
            d.settings.orientation,
            d.settings.direction,
            d.settings.panel_margin,
        ),
        clock_after_step(clock, d, now).last == now,
{
    let next = clock_after_step(clock, d, now);
    let span = marquee::span(live(d).text, live(d).orientation);
    if span > 0 {
        vstd::arithmetic::div_mod::lemma_mod_bound(clock.offset as int + 1, span);
    }
    a_step_shows_the_text_where_it_stands(next, d);
    marquee::wrapping_is_invisible(
        d.settings.text,
        clock.offset as int,
        d.settings.orientation,
        d.settings.direction,
        d.settings.panel_margin,
    );
}

/// A tick moves the marquee just if the last frame is more than five seconds
/// old and the delay that is set has passed, and changes the colour just if the
/// last one has stayed for more than a second.
pub proof fn a_tick_goes_by_the_clock(
    a: AnimationView,
    d: display::DisplayView,
    arrived: u64,
    now: u64,
)
    requires
        a.quiet_until == stream_end(arrived),
        arrived <= u64::MAX - 5_000_000_000,
    ensures
        scrolls(a, d, now) <==> now - arrived > 5_000_000_000 && now - a.marquee.last
            > d.settings.speed_ms * 1_000_000,
        recolors(a, now) <==> now - a.last_color > 1_000_000_000,
{
}

/// The status colours are red, blue, yellow and green, and follow each other in
/// that order: each of them has one channel that leads, or two.
pub proof fn the_status_colors_are_what_they_are_called()
    ensures
        status_color(0).r > status_color(0).g && status_color(0).r > status_color(0).b,
        status_color(1).b > status_color(1).g > status_color(1).r,
        status_color(2).r > status_color(2).g > status_color(2).b && status_color(2).b == 0,
        status_color(3).g > status_color(3).r > status_color(3).b,
{
}

} // verus!
