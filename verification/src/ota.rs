//! Firmware updates: is an upload plausibly our firmware, is it going to fit,
//! and what is answered.
//!
//! The body of the request is the raw application image. It is written into the
//! spare slot in pieces as it arrives, so everything here judges a prefix.

use vstd::prelude::*;

use crate::display;
use crate::display::DisplayDriver;
use crate::health;
use crate::health::{Health, OtaExpect};
use crate::portal::PortalMode;
use crate::text;
use crate::text::push_decimal;

verus! {

/// Streamed in 4K pieces: one flash sector.
pub const OTA_CHUNK: usize = 4096;

/// Enough of the head of the image to cover the image header (24 bytes), the
/// first segment header (8) and the start of the application descriptor that
/// follows.
pub const OTA_HEADER_PEEK: usize = 96;

/// The real firmware is about a megabyte. Anything this small is a wrong file,
/// not a build.
pub const OTA_MIN_IMAGE: u64 = 256 * 1024;

/// Used only if the spare slot cannot be interrogated.
pub const OTA_SLOT_FALLBACK: usize = 0x1F_0000;

/// First byte of any application image.
pub const ESP_IMAGE_MAGIC: u8 = 0xE9;

/// Magic word of the application descriptor, at offset 0x20 of the image.
pub const ESP_APP_DESC_MAGIC: u32 = 0xABCD_5432;

/// What can be wrong with the head of an image.
#[derive(Clone, Copy, PartialEq, Eq, Debug, Structural)]
pub enum ImageProblem {
    BadMagic,
    WrongChip,
    NoAppDescriptor,
}

/// How a problem with an image is put into words.
pub open spec fn image_problem_text(problem: ImageProblem) -> Seq<char> {
    match problem {
        ImageProblem::BadMagic => "not an esp32 application image (bad magic byte)"@,
        ImageProblem::WrongChip => "that image was built for a different chip"@,
        ImageProblem::NoAppDescriptor =>
            "no application descriptor -- is that a bootloader or a merged image?"@,
    }
}

impl ImageProblem {
    pub fn message(self) -> (msg: &'static str)
        ensures
            msg@ == image_problem_text(self),
    {
        match self {
            ImageProblem::BadMagic => "not an esp32 application image (bad magic byte)",
            ImageProblem::WrongChip => "that image was built for a different chip",
            ImageProblem::NoAppDescriptor =>
                "no application descriptor -- is that a bootloader or a merged image?",
        }
    }
}

/// The two bytes at `at`, least significant first.
pub open spec fn le_u16(bytes: Seq<u8>, at: int) -> int {
    bytes[at] + bytes[at + 1] * 0x100
}

/// The four bytes at `at`, least significant first.
pub open spec fn le_u32(bytes: Seq<u8>, at: int) -> int {
    le_u16(bytes, at) + le_u16(bytes, at + 2) * 0x1_0000
}

/// What is wrong with an image that starts with `head`, as far as `head` shows
/// it: the first byte, then the chip it was built for, then the descriptor.
pub open spec fn image_problem(head: Seq<u8>) -> Option<ImageProblem> {
    if head.len() >= 1 && head[0] != ESP_IMAGE_MAGIC {
        Some(ImageProblem::BadMagic)
    } else if head.len() >= 14 && le_u16(head, 12) != 0 {
        Some(ImageProblem::WrongChip)
    } else if head.len() >= 36 && le_u32(head, 32) != ESP_APP_DESC_MAGIC {
        Some(ImageProblem::NoAppDescriptor)
    } else {
        None
    }
}

/// Check as much of the image header as has arrived so far. Called repeatedly
/// as the first chunks come in, so a short prefix is "not yet known to be bad"
/// rather than an error.
pub fn validate_image_prefix(head: &[u8]) -> (checked: Result<(), ImageProblem>)
    ensures
        checked == (match image_problem(head@) {
            Some(problem) => Err(problem),
            None => Ok(()),
        }),
{
    if head.len() > 0 && head[0] != ESP_IMAGE_MAGIC {
        return Err(ImageProblem::BadMagic);
    }
    if head.len() >= 14 {
        // The chip id of the image header. This chip's is 0.
        let chip: u16 = head[12] as u16 + head[13] as u16 * 0x100;
        if chip != 0 {
            return Err(ImageProblem::WrongChip);
        }
    }
    if head.len() >= 36 {
        let low: u32 = head[32] as u32 + head[33] as u32 * 0x100;
        let high: u32 = head[34] as u32 + head[35] as u32 * 0x100;
        if low + high * 0x1_0000 != ESP_APP_DESC_MAGIC {
            return Err(ImageProblem::NoAppDescriptor);
        }
    }
    Ok(())
}

/// What can be wrong with the announced size of an upload.
#[derive(Clone, Copy, PartialEq, Eq, Debug, Structural)]
pub enum UploadProblem {
    LengthRequired,
    TooSmall(u64),
    TooLarge(u64, usize),
}

/// The status an upload of the wrong size is answered with.
pub open spec fn upload_problem_status(problem: UploadProblem) -> u16 {
    match problem {
        UploadProblem::LengthRequired => 411,
        UploadProblem::TooSmall(_) => 400,
        UploadProblem::TooLarge(_, _) => 413,
    }
}

/// How a problem with a size is put into words.
pub open spec fn upload_problem_text(problem: UploadProblem) -> Seq<char> {
    match problem {
        UploadProblem::LengthRequired =>
            "a Content-Length is required; this server cannot take a chunked body"@,
        UploadProblem::TooSmall(n) => text::decimal(n as nat)
            + " bytes is far too small to be this firmware"@,
        UploadProblem::TooLarge(n, slot) => text::decimal(n as nat) + " bytes will not fit the "@
            + text::decimal(slot as nat)
            + " byte slot (a padded or merged image, perhaps?)"@,
    }
}

impl UploadProblem {
    pub fn status(self) -> (status: u16)
        ensures
            status == upload_problem_status(self),
    {
        match self {
            UploadProblem::LengthRequired => 411,
            UploadProblem::TooSmall(_) => 400,
            UploadProblem::TooLarge(_, _) => 413,
        }
    }

    pub fn message(self) -> (msg: String)
        ensures
            msg@ == upload_problem_text(self),
    {
        let mut msg = String::new();
        match self {
            UploadProblem::LengthRequired => {
                msg.append("a Content-Length is required; this server cannot take a chunked body");
            },
            UploadProblem::TooSmall(n) => {
                push_decimal(&mut msg, n);
                msg.append(" bytes is far too small to be this firmware");
            },
            UploadProblem::TooLarge(n, slot) => {
                push_decimal(&mut msg, n);
                msg.append(" bytes will not fit the ");
                push_decimal(&mut msg, slot as u64);
                msg.append(" byte slot (a padded or merged image, perhaps?)");
            },
        }
        assert(msg@ =~= upload_problem_text(self));
        msg
    }
}

/// What is wrong with an announced size.
pub open spec fn size_problem(content_len: Option<u64>, slot: usize) -> Option<UploadProblem> {
    match content_len {
        None => Some(UploadProblem::LengthRequired),
        Some(len) => if len < OTA_MIN_IMAGE {
            Some(UploadProblem::TooSmall(len))
        } else if len > slot {
            Some(UploadProblem::TooLarge(len, slot))
        } else {
            None
        },
    }
}

/// Decide whether a body is worth starting an update for, before any of it is
/// read. The most likely real mistake is a padded or merged image, which is
/// flash-sized rather than app-sized, so that one gets its own hint.
pub fn check_upload_size(content_len: Option<u64>, slot: usize) -> (checked: Result<
    usize,
    UploadProblem,
>)
    ensures
        match size_problem(content_len, slot) {
            Some(problem) => checked == Err::<usize, UploadProblem>(problem),
            None => checked is Ok && content_len == Some(checked->Ok_0 as u64),
        },
{
    let len: u64 = match content_len {
        Some(len) => len,
        None => {
            return Err(UploadProblem::LengthRequired);
        },
    };
    if len < OTA_MIN_IMAGE {
        return Err(UploadProblem::TooSmall(len));
    }
    if len > slot as u64 {
        return Err(UploadProblem::TooLarge(len, slot));
    }
    Ok(len as usize)
}

/// Size of the slot an update would be written into, if it is known, else the
/// size that the partition table gives it.
pub fn ota_slot_size(known: Option<usize>) -> (size: usize)
    ensures
        size == (match known {
            Some(n) => n,
            None => OTA_SLOT_FALLBACK,
        }),
{
    match known {
        Some(n) => n,
        None => OTA_SLOT_FALLBACK,
    }
}

/// How much of an upload has been written, in percent, rounded down and never
/// more than everything.
pub open spec fn progress(written: nat, total: nat) -> nat {
    if total == 0 {
        0
    } else if written * 100 / total < 100 {
        written * 100 / total
    } else {
        100
    }
}

pub fn ota_progress_percent(written: usize, total: usize) -> (percent: u8)
    ensures
        percent == progress(written as nat, total as nat),
        percent <= 100,
{
    if total == 0 {
        return 0;
    }
    let percent: u128 = written as u128 * 100 / total as u128;
    if percent < 100 {
        percent as u8
    } else {
        100
    }
}

/// How an upload is answered.
pub enum OtaReply {
    /// An open portal serves the settings page, but does not run arbitrary code.
    NoPassword,
    Busy,
    Size(UploadProblem),
    NoSlots,
    SlotClosed,
    EndedEarly,
    Stalled(String),
    Image(ImageProblem),
    FlashWrite(String),
    Rejected,
    Written,
}

/// The status of an answer.
pub open spec fn reply_status(reply: OtaReply) -> u16 {
    match reply {
        OtaReply::NoPassword => 403,
        OtaReply::Busy => 409,
        OtaReply::Size(problem) => upload_problem_status(problem),
        OtaReply::NoSlots => 500,
        OtaReply::SlotClosed => 500,
        OtaReply::EndedEarly => 400,
        OtaReply::Stalled(_) => 408,
        OtaReply::Image(_) => 400,
        OtaReply::FlashWrite(_) => 500,
        OtaReply::Rejected => 400,
        OtaReply::Written => 200,
    }
}

/// What an answer says.
pub open spec fn reply_text(reply: OtaReply) -> Seq<char> {
    match reply {
        OtaReply::NoPassword => "set a portal password before uploading firmware"@,
        OtaReply::Busy => "another update is already running"@,
        OtaReply::Size(problem) => upload_problem_text(problem),
        OtaReply::NoSlots => "no ota slots on this device"@,
        OtaReply::SlotClosed => "could not open the spare slot"@,
        OtaReply::EndedEarly => "the body ended early"@,
        OtaReply::Stalled(why) => "upload stalled: "@ + why@,
        OtaReply::Image(problem) => image_problem_text(problem),
        OtaReply::FlashWrite(why) => "flash write failed: "@ + why@,
        OtaReply::Rejected => "the image failed esp-idf's own checks"@,
        OtaReply::Written => "ok"@,
    }
}

impl OtaReply {
    pub fn status(&self) -> (status: u16)
        ensures
            status == reply_status(*self),
    {
        match self {
            OtaReply::NoPassword => 403,
            OtaReply::Busy => 409,
            OtaReply::Size(problem) => problem.status(),
            OtaReply::NoSlots => 500,
            OtaReply::SlotClosed => 500,
            OtaReply::EndedEarly => 400,
            OtaReply::Stalled(_) => 408,
            OtaReply::Image(_) => 400,
            OtaReply::FlashWrite(_) => 500,
            OtaReply::Rejected => 400,
            OtaReply::Written => 200,
        }
    }

    pub fn message(&self) -> (msg: String)
        ensures
            msg@ == reply_text(*self),
    {
        match self {
            OtaReply::NoPassword => "set a portal password before uploading firmware".to_owned(),
            OtaReply::Busy => "another update is already running".to_owned(),
            OtaReply::Size(problem) => problem.message(),
            OtaReply::NoSlots => "no ota slots on this device".to_owned(),
            OtaReply::SlotClosed => "could not open the spare slot".to_owned(),
            OtaReply::EndedEarly => "the body ended early".to_owned(),
            OtaReply::Stalled(why) => {
                let mut msg = "upload stalled: ".to_owned();
                msg.append(why.as_str());
                msg
            },
            OtaReply::Image(problem) => problem.message().to_owned(),
            OtaReply::FlashWrite(why) => {
                let mut msg = "flash write failed: ".to_owned();
                msg.append(why.as_str());
                msg
            },
            OtaReply::Rejected => "the image failed esp-idf's own checks".to_owned(),
            OtaReply::Written => "ok".to_owned(),
        }
    }

    /// The body of the answer: the message on a line of its own.
    pub fn body(&self) -> (body: String)
        ensures
            body@ == reply_text(*self).push('\n'),
    {
        let mut body = self.message();
        body.push('\n');
        body
    }
}

/// Only one update at a time. Two interleaved writes into the same slot produce
/// something shaped like firmware that is not firmware.
pub struct OtaInFlight {
    busy: bool,
}

impl View for OtaInFlight {
    type V = bool;

    closed spec fn view(&self) -> bool {
        self.busy
    }
}

/// Why an upload is turned away before any of it is read. A missing password
/// comes first, then an update that is already running, then the size.
pub open spec fn refusal(
    configured: bool,
    busy: bool,
    content_len: Option<u64>,
    slot: usize,
) -> Option<OtaReply> {
    if !configured {
        Some(OtaReply::NoPassword)
    } else if busy {
        Some(OtaReply::Busy)
    } else {
        match size_problem(content_len, slot) {
            Some(problem) => Some(OtaReply::Size(problem)),
            None => None,
        }
    }
}

impl OtaInFlight {
    pub fn new() -> (flight: OtaInFlight)
        ensures
            !flight@,
    {
        OtaInFlight { busy: false }
    }

    /// Let an upload in, or say why not. An upload that is let in counts as running
    /// until it is released; one that is turned away leaves it as it was.
    pub fn let_in(&mut self, configured: bool, content_len: Option<u64>, slot: usize) -> (admitted:
        Result<usize, OtaReply>)
        ensures
            match refusal(configured, old(self)@, content_len, slot) {
                Some(why) => admitted == Err::<usize, OtaReply>(why) && final(self)@ == old(self)@,
                None => admitted is Ok && content_len == Some(admitted->Ok_0 as u64)
                    && final(self)@,
            },
    {
        if !configured {
            return Err(OtaReply::NoPassword);
        }
        if self.busy {
            return Err(OtaReply::Busy);
        }
        match check_upload_size(content_len, slot) {
            Ok(total) => {
                self.busy = true;
                Ok(total)
            },
            Err(problem) => Err(OtaReply::Size(problem)),
        }
    }

    /// The update is over, however it ended.
    pub fn release(&mut self)
        ensures
            !final(self)@,
    {
        self.busy = false;
    }
}

/// An upload on its way into the spare slot.
pub struct OtaTransfer {
    total: usize,
    written: usize,
    head: Vec<u8>,
    last_percent: u8,
}

/// An upload on its way, as values: its size, how much has been written, the
/// head of the image as far as it has arrived, and the percentage last shown,
/// which is out of range before anything has been shown.
pub struct TransferView {
    pub total: nat,
    pub written: nat,
    pub head: Seq<u8>,
    pub last_percent: u8,
}

impl View for OtaTransfer {
    type V = TransferView;

    closed spec fn view(&self) -> TransferView {
        TransferView {
            total: self.total as nat,
            written: self.written as nat,
            head: self.head@,
            last_percent: self.last_percent,
        }
    }
}

impl TransferView {
    /// What every step of an upload keeps.
    pub open spec fn well_formed(self) -> bool {
        &&& self.written <= self.total <= usize::MAX
        &&& self.head.len() <= OTA_HEADER_PEEK
    }

    /// How much is asked for next.
    pub open spec fn wanted(self) -> nat {
        if self.total - self.written < OTA_CHUNK {
            (self.total - self.written) as nat
        } else {
            OTA_CHUNK as nat
        }
    }
}

/// An upload of which nothing has arrived.
pub open spec fn fresh_transfer(total: nat) -> TransferView {
    TransferView { total, written: 0, head: Seq::empty(), last_percent: 255 }
}

/// The head of an image, given the part of it that had arrived and what arrives
/// next.
pub open spec fn head_with(head: Seq<u8>, chunk: Seq<u8>) -> Seq<u8> {
    text::truncated(head + chunk, OTA_HEADER_PEEK as int)
}

/// Why an upload is given up when `chunk` arrives.
pub open spec fn chunk_refusal(head: Seq<u8>, chunk: Seq<u8>) -> Option<OtaReply> {
    if chunk.len() == 0 {
        Some(OtaReply::EndedEarly)
    } else if head.len() < OTA_HEADER_PEEK {
        match image_problem(head_with(head, chunk)) {
            Some(problem) => Some(OtaReply::Image(problem)),
            None => None,
        }
    } else {
        None
    }
}

impl OtaTransfer {
    /// An upload of `total` bytes, none of which has arrived.
    pub fn new(total: usize) -> (transfer: OtaTransfer)
        ensures
            transfer@.well_formed(),
            transfer@ == fresh_transfer(total as nat),
    {
        OtaTransfer { total, written: 0, head: Vec::new(), last_percent: 255 }
    }

    /// How many bytes to read next. None when everything has been written.
    pub fn wants(&self) -> (n: usize)
        requires
            self@.well_formed(),
        ensures
            n == self@.wanted(),
            n == 0 <==> self@.written == self@.total,
    {
        let left: usize = self.total - self.written;
        if left < OTA_CHUNK {
            left
        } else {
            OTA_CHUNK
        }
    }

    /// Look at what has been read. Without an answer it is to be written to the
    /// slot; with one the upload is given up. Reading nothing at all means that
    /// the body has ended.
    pub fn receive(&mut self, chunk: &[u8]) -> (given_up: Option<OtaReply>)
        requires
            old(self)@.well_formed(),
        ensures
            final(self)@.well_formed(),
            given_up == chunk_refusal(old(self)@.head, chunk@),
            final(self)@ == (TransferView {
                head: head_with(old(self)@.head, chunk@),
                ..old(self)@
            }),
    {
        if chunk.len() == 0 {
            assert(head_with(self.head@, chunk@) =~= self.head@);
            return Some(OtaReply::EndedEarly);
        }
        if self.head.len() < OTA_HEADER_PEEK {
            let ghost before = self.head@;
            let mut i: usize = 0;
            while i < chunk.len() && self.head.len() < OTA_HEADER_PEEK
                invariant
                    i <= chunk.len(),
                    self.head@.len() <= OTA_HEADER_PEEK,
                    self.head@ == before + chunk@.take(i as int),
                    self.total == old(self).total,
                    self.written == old(self).written,
                    self.last_percent == old(self).last_percent,
                decreases chunk.len() - i,
            {
                self.head.push(chunk[i]);
                assert(chunk@.take(i + 1) =~= chunk@.take(i as int).push(chunk@[i as int]));
                i = i + 1;
                assert(self.head@ =~= before + chunk@.take(i as int));
            }
            assert(self.head@ =~= head_with(before, chunk@));
            match validate_image_prefix(self.head.as_slice()) {
                Ok(()) => None,
                Err(problem) => Some(OtaReply::Image(problem)),
            }
        } else {
            assert(head_with(self.head@, chunk@) =~= self.head@);
            None
        }
    }

    /// `n` more bytes are in the slot. The panels follow, a percent at a time.
    pub fn flashed(&mut self, n: usize, display: &mut DisplayDriver)
        requires
            old(self)@.well_formed(),
            old(self)@.written + n <= old(self)@.total,
        ensures
            final(self)@.well_formed(),
            final(self)@ == (TransferView {
                written: old(self)@.written + n as nat,
                last_percent: progress(old(self)@.written + n as nat, old(self)@.total) as u8,
                ..old(self)@
            }),
            final(display)@ == (if final(self)@.last_percent == old(self)@.last_percent {
                old(display)@
            } else {
                display::DisplayView { update: Some(final(self)@.last_percent), ..old(display)@ }
            }),
    {
        self.written = self.written + n;
        let percent: u8 = ota_progress_percent(self.written, self.total);
        if percent != self.last_percent {
            display.set_update_progress(percent);
            self.last_percent = percent;
        }
    }
}

/// What an image has to prove after it was uploaded: whatever the light was
/// doing when it accepted the upload.
pub open spec fn expectation_of(mode: PortalMode) -> OtaExpect {
    match mode {
        PortalMode::Connected { ip: _ } => OtaExpect::Station,
        PortalMode::Setup => OtaExpect::Ap,
    }
}

/// How far an upload has got.
#[derive(Clone, Copy, PartialEq, Eq, Debug, Structural)]
pub enum UploadPhase {
    /// Let in, with nothing done yet.
    LetIn,
    /// The slots are being reached.
    Reaching,
    /// The running image is being marked valid.
    Confirming,
    /// The spare slot is being opened.
    Opening,
    /// A piece of the body is being read.
    Reading,
    /// A piece of `n` bytes is being written to the slot.
    Flashing { n: usize },
    /// The upload is being given up.
    Aborting,
    /// The boot pointer is being moved.
    Completing,
    /// Answered.
    Over,
}

/// What has happened to an upload.
pub enum UploadEvent<'a> {
    LetIn,
    /// The slots are there. Says whether the running image is provisional, if
    /// that can be told.
    SlotsReached { provisional: Option<bool> },
    NoSlots,
    /// The running image was marked valid, as far as that went.
    Marked,
    Opened,
    OpenFailed,
    /// This much of the body was read. Nothing at all means that it has ended.
    Read(&'a [u8]),
    ReadFailed(String),
    /// What was read last is in the slot.
    Flashed,
    FlashFailed(String),
    Aborted,
    Completed,
    CompletionFailed,
}

/// What is to be done next about an upload.
pub enum UploadAct {
    ReachSlots,
    /// Mark the running image valid.
    MarkValid,
    /// Open the spare slot.
    OpenSlot,
    /// Read at most so many bytes of the body.
    Read(usize),
    /// Write what was read last to the slot.
    Flash,
    /// Give the slot up.
    Abort,
    /// Move the boot pointer to the slot.
    Complete,
    Answer(OtaReply),
    /// The event was out of turn.
    Nothing,
}

/// An upload, from the moment it is let in until it is answered.
pub struct Upload {
    phase: UploadPhase,
    expect: OtaExpect,
    transfer: OtaTransfer,
    failure: Option<OtaReply>,
}

/// An upload, as values: how far it has got, what its image will have to prove,
/// the transfer, and why it is being given up.
pub struct UploadView {
    pub phase: UploadPhase,
    pub expect: OtaExpect,
    pub transfer: TransferView,
    pub failure: Option<OtaReply>,
}

impl View for Upload {
    type V = UploadView;

    closed spec fn view(&self) -> UploadView {
        UploadView {
            phase: self.phase,
            expect: self.expect,
            transfer: self.transfer@,
            failure: self.failure,
        }
    }
}

impl UploadView {
    /// What every event keeps.
    pub open spec fn well_formed(self) -> bool {
        &&& self.transfer.well_formed()
        &&& match self.phase {
            UploadPhase::Flashing { n } => n > 0 && self.transfer.written + n
                <= self.transfer.total,
            _ => true,
        }
    }
}

/// An upload that was just let in.
pub open spec fn fresh_upload(total: nat, expect: OtaExpect) -> UploadView {
    UploadView {
        phase: UploadPhase::LetIn,
        expect,
        transfer: fresh_transfer(total),
        failure: None,
    }
}

/// What an event leads to.
pub struct UploadStep {
    pub upload: UploadView,
    pub health: health::HealthView,
    pub display: display::DisplayView,
    pub act: UploadAct,
}

/// On to the next piece. Once everything has been written, what the image has
/// to prove is recorded, and only then does the boot pointer move.
pub open spec fn going_on(
    upload: UploadView,
    health: health::HealthView,
    display: display::DisplayView,
) -> UploadStep {
    if upload.transfer.written < upload.transfer.total {
        UploadStep {
            upload: UploadView { phase: UploadPhase::Reading, ..upload },
            health,
            display,
            act: UploadAct::Read(upload.transfer.wanted() as usize),
        }
    } else {
        UploadStep {
            upload: UploadView { phase: UploadPhase::Completing, ..upload },
            health: health::HealthView {
                stored: Some(health::expectation_code(upload.expect)),
                ..health
            },
            display,
            act: UploadAct::Complete,
        }
    }
}

/// An upload is given up: first the slot, then the bar on the panels, and then
/// it is answered.
pub open spec fn giving_up(
    upload: UploadView,
    health: health::HealthView,
    display: display::DisplayView,
    why: OtaReply,
) -> UploadStep {
    UploadStep {
        upload: UploadView { phase: UploadPhase::Aborting, failure: Some(why), ..upload },
        health,
        display,
        act: UploadAct::Abort,
    }
}

/// What an event leads to in the phase that the upload is in. One that does not
/// belong there, such as a piece longer than was asked for, leads to nothing.
pub open spec fn upload_step(
    upload: UploadView,
    event: UploadEvent,
    health: health::HealthView,
    display: display::DisplayView,
) -> UploadStep {
    let in_phase = |phase: UploadPhase, act: UploadAct|
        UploadStep { upload: UploadView { phase, ..upload }, health, display, act };
    match (upload.phase, event) {
        (UploadPhase::LetIn, UploadEvent::LetIn) => in_phase(
            UploadPhase::Reaching,
            UploadAct::ReachSlots,
        ),
        (UploadPhase::Reaching, UploadEvent::NoSlots) => in_phase(
            UploadPhase::Over,
            UploadAct::Answer(OtaReply::NoSlots),
        ),
        (UploadPhase::Reaching, UploadEvent::SlotsReached { provisional }) => if provisional
            == Some(true) {
            in_phase(UploadPhase::Confirming, UploadAct::MarkValid)
        } else {
            in_phase(UploadPhase::Opening, UploadAct::OpenSlot)
        },
        (UploadPhase::Confirming, UploadEvent::Marked) => UploadStep {
            health: health::settled_health(),
            ..in_phase(UploadPhase::Opening, UploadAct::OpenSlot)
        },
        (UploadPhase::Opening, UploadEvent::OpenFailed) => in_phase(
            UploadPhase::Over,
            UploadAct::Answer(OtaReply::SlotClosed),
        ),
        (UploadPhase::Opening, UploadEvent::Opened) => going_on(
            upload,
            health,
            display::DisplayView { update: Some(0), ..display },
        ),
        (UploadPhase::Reading, UploadEvent::ReadFailed(why)) => giving_up(
            upload,
            health,
            display,
            OtaReply::Stalled(why),
        ),
        (UploadPhase::Reading, UploadEvent::Read(chunk)) => if chunk@.len()
            > upload.transfer.wanted() {
            in_phase(upload.phase, UploadAct::Nothing)
        } else {
            let looked_at = UploadView {
                transfer: TransferView {
                    head: head_with(upload.transfer.head, chunk@),
                    ..upload.transfer
                },
                ..upload
            };
            match chunk_refusal(upload.transfer.head, chunk@) {
                Some(why) => giving_up(looked_at, health, display, why),
                None => UploadStep {
                    upload: UploadView {
                        phase: UploadPhase::Flashing { n: chunk@.len() as usize },
                        ..looked_at
                    },
                    health,
                    display,
                    act: UploadAct::Flash,
                },
            }
        },
        (UploadPhase::Flashing { n }, UploadEvent::FlashFailed(why)) => giving_up(
            upload,
            health,
            display,
            OtaReply::FlashWrite(why),
        ),
        (UploadPhase::Flashing { n }, UploadEvent::Flashed) => {
            let written = upload.transfer.written + n as nat;
            let percent = progress(written, upload.transfer.total) as u8;
            going_on(
                UploadView {
                    transfer: TransferView { written, last_percent: percent, ..upload.transfer },
                    ..upload
                },
                health,
                if percent == upload.transfer.last_percent {
                    display
                } else {
                    display::DisplayView { update: Some(percent), ..display }
                },
            )
        },
        (UploadPhase::Aborting, UploadEvent::Aborted) => match upload.failure {
            Some(why) => UploadStep {
                upload: UploadView { phase: UploadPhase::Over, failure: None, ..upload },
                health,
                display: display::DisplayView { update: None, ..display },
                act: UploadAct::Answer(why),
            },
            None => in_phase(upload.phase, UploadAct::Nothing),
        },
        (UploadPhase::Completing, UploadEvent::Completed) => UploadStep {
            display: display::DisplayView { update: Some(100), ..display },
            ..in_phase(UploadPhase::Over, UploadAct::Answer(OtaReply::Written))
        },
        (UploadPhase::Completing, UploadEvent::CompletionFailed) => UploadStep {
            health: health::HealthView { stored: None, ..health },
            display: display::DisplayView { update: None, ..display },
            ..in_phase(UploadPhase::Over, UploadAct::Answer(OtaReply::Rejected))
        },
        _ => in_phase(upload.phase, UploadAct::Nothing),
    }
}

impl Upload {
    /// An upload of `total` bytes that was let in by a portal in `mode`.
    pub fn new(total: usize, mode: &PortalMode) -> (upload: Upload)
        ensures
            upload@.well_formed(),
            upload@ == fresh_upload(total as nat, expectation_of(*mode)),
    {
        Upload {
            phase: UploadPhase::LetIn,
            expect: match mode {
                PortalMode::Connected { ip: _ } => OtaExpect::Station,
                PortalMode::Setup => OtaExpect::Ap,
            },
            transfer: OtaTransfer::new(total),
            failure: None,
        }
    }

    /// What the image will have to prove.
    pub fn expectation(&self) -> (expect: OtaExpect)
        ensures
            expect == self@.expect,
    {
        self.expect
    }

    pub fn phase(&self) -> (phase: UploadPhase)
        ensures
            phase == self@.phase,
    {
        self.phase
    }

    fn go_on(&mut self, health: &mut Health) -> (act: UploadAct)
        requires
            old(self)@.transfer.well_formed(),
        ensures
            final(self)@.well_formed(),
            old(self)@.transfer.written < old(self)@.transfer.total ==> {
                &&& final(self)@ == (UploadView { phase: UploadPhase::Reading, ..old(self)@ })
                &&& final(health)@ == old(health)@
                &&& act == UploadAct::Read(old(self)@.transfer.wanted() as usize)
            },
            old(self)@.transfer.written == old(self)@.transfer.total ==> {
                &&& final(self)@ == (UploadView { phase: UploadPhase::Completing, ..old(self)@ })
                &&& final(health)@ == (health::HealthView {
                    stored: Some(health::expectation_code(old(self)@.expect)),
                    ..old(health)@
                })
                &&& act == UploadAct::Complete
            },
    {
        let want: usize = self.transfer.wants();
        if want > 0 {
            self.phase = UploadPhase::Reading;
            UploadAct::Read(want)
        } else {
            // Recorded before the boot pointer moves, so that a power cut
            // between the two cannot lose it.
            health.promise(self.expect);
            self.phase = UploadPhase::Completing;
            UploadAct::Complete
        }
    }

    fn give_up(&mut self, why: OtaReply) -> (act: UploadAct)
        requires
            old(self)@.transfer.well_formed(),
        ensures
            final(self)@.well_formed(),
            final(self)@ == (UploadView {
                phase: UploadPhase::Aborting,
                failure: Some(why),
                ..old(self)@
            }),
            act == UploadAct::Abort,
    {
        self.phase = UploadPhase::Aborting;
        self.failure = Some(why);
        UploadAct::Abort
    }

    /// Take an event, and say what is to be done next.
    ///
    /// Someone authenticated and reached the portal, which is proof enough that a
    /// provisional image works: it is taken for good before the spare slot is
    /// opened, or the update would be refused while it is still provisional.
    pub fn next(
        &mut self,
        event: UploadEvent,
        health: &mut Health,
        display: &mut DisplayDriver,
    ) -> (act: UploadAct)
        requires
            old(self)@.well_formed(),
        ensures
            final(self)@.well_formed(),
            ({
                let step = upload_step(old(self)@, event, old(health)@, old(display)@);
                &&& final(self)@ == step.upload
                &&& final(health)@ == step.health
                &&& final(display)@ == step.display
                &&& act == step.act
            }),
    {
        match (self.phase, event) {
            (UploadPhase::LetIn, UploadEvent::LetIn) => {
                self.phase = UploadPhase::Reaching;
                UploadAct::ReachSlots
            },
            (UploadPhase::Reaching, UploadEvent::NoSlots) => {
                self.phase = UploadPhase::Over;
                UploadAct::Answer(OtaReply::NoSlots)
            },
            (UploadPhase::Reaching, UploadEvent::SlotsReached { provisional }) => {
                match provisional {
                    Some(true) => {
                        self.phase = UploadPhase::Confirming;
                        UploadAct::MarkValid
                    },
                    _ => {
                        self.phase = UploadPhase::Opening;
                        UploadAct::OpenSlot
                    },
                }
            },
            (UploadPhase::Confirming, UploadEvent::Marked) => {
                health.confirm();
                self.phase = UploadPhase::Opening;
                UploadAct::OpenSlot
            },
            (UploadPhase::Opening, UploadEvent::OpenFailed) => {
                self.phase = UploadPhase::Over;
                UploadAct::Answer(OtaReply::SlotClosed)
            },
            (UploadPhase::Opening, UploadEvent::Opened) => {
                display.begin_update();
                self.go_on(health)
            },
            (UploadPhase::Reading, UploadEvent::ReadFailed(why)) => self.give_up(
                OtaReply::Stalled(why),
            ),
            (UploadPhase::Reading, UploadEvent::Read(chunk)) => {
                if chunk.len() > self.transfer.wants() {
                    return UploadAct::Nothing;
                }
                match self.transfer.receive(chunk) {
                    Some(why) => self.give_up(why),
                    None => {
                        self.phase = UploadPhase::Flashing { n: chunk.len() };
                        UploadAct::Flash
                    },
                }
            },
            (UploadPhase::Flashing { n: _ }, UploadEvent::FlashFailed(why)) => self.give_up(
                OtaReply::FlashWrite(why),
            ),
            (UploadPhase::Flashing { n }, UploadEvent::Flashed) => {
                self.transfer.flashed(n, display);
                self.go_on(health)
            },
            (UploadPhase::Aborting, UploadEvent::Aborted) => {
                match self.failure.take() {
                    Some(why) => {
                        display.end_update();
                        self.phase = UploadPhase::Over;
                        UploadAct::Answer(why)
                    },
                    None => UploadAct::Nothing,
                }
            },
            (UploadPhase::Completing, UploadEvent::Completed) => {
                display.set_update_progress(100);
                self.phase = UploadPhase::Over;
                UploadAct::Answer(OtaReply::Written)
            },
            (UploadPhase::Completing, UploadEvent::CompletionFailed) => {
                // A rejected image has nothing to prove.
                health.withdraw();
                display.end_update();
                self.phase = UploadPhase::Over;
                UploadAct::Answer(OtaReply::Rejected)
            },
            _ => UploadAct::Nothing,
        }
    }
}

/// What is wrong with the head of an image is not mended by what follows it: an
/// image that is refused early would have been refused with the same words had
/// more of it arrived.
pub proof fn a_refusal_is_final(head: Seq<u8>, more: Seq<u8>)
    requires
        image_problem(head) is Some,
    ensures
        image_problem(head + more) == image_problem(head),
{
}

/// A good image is not refused for having arrived only in part.
pub proof fn a_prefix_of_a_good_image_is_good(image: Seq<u8>, n: int)
    requires
        0 <= n <= image.len(),
        image_problem(image) is None,
    ensures
        image_problem(image.take(n)) is None,
{
    if image_problem(image.take(n)) is Some {
        a_refusal_is_final(image.take(n), image.skip(n));
        assert(image.take(n) + image.skip(n) =~= image);
    }
}

/// Everything that arrived, in one piece.
pub open spec fn arrived(chunks: Seq<Seq<u8>>) -> Seq<u8>
    decreases chunks.len(),
{
    if chunks.len() == 0 {
        Seq::empty()
    } else {
        arrived(chunks.drop_last()) + chunks.last()
    }
}

/// The head of the image after the chunks were received one by one.
pub open spec fn head_after(chunks: Seq<Seq<u8>>) -> Seq<u8>
    decreases chunks.len(),
{
    if chunks.len() == 0 {
        Seq::empty()
    } else {
        head_with(head_after(chunks.drop_last()), chunks.last())
    }
}

/// None of the chunks, received one by one, makes the upload be given up.
pub open spec fn all_received(chunks: Seq<Seq<u8>>) -> bool
    decreases chunks.len(),
{
    chunks.len() > 0 ==> {
        &&& all_received(chunks.drop_last())
        &&& chunk_refusal(head_after(chunks.drop_last()), chunks.last()) is None
    }
}

/// However a body is cut into chunks, the head that is judged is the start of
/// the body, and the upload goes on just if that start is not known to be bad.
pub proof fn chunking_does_not_matter(chunks: Seq<Seq<u8>>)
    requires
        forall|i: int| 0 <= i < chunks.len() ==> (#[trigger] chunks[i]).len() > 0,
    ensures
        head_after(chunks) == text::truncated(arrived(chunks), OTA_HEADER_PEEK as int),
        all_received(chunks) <==> image_problem(
            text::truncated(arrived(chunks), OTA_HEADER_PEEK as int),
        ) is None,
    decreases chunks.len(),
{
    if chunks.len() > 0 {
        let front = chunks.drop_last();
        let chunk = chunks.last();
        chunking_does_not_matter(front);
        let head = head_after(front);
        assert(head_with(head, chunk) =~= text::truncated(
            arrived(chunks),
            OTA_HEADER_PEEK as int,
        ));
        if head.len() < OTA_HEADER_PEEK {
            let whole = head_with(head, chunk);
            assert(whole.take(head.len() as int) =~= head);
            if image_problem(whole) is None {
                a_prefix_of_a_good_image_is_good(whole, head.len() as int);
            }
        } else {
            assert(head_with(head, chunk) =~= head);
        }
    } else {
        assert(head_after(chunks) =~= text::truncated(arrived(chunks), OTA_HEADER_PEEK as int));
    }
}

/// Progress never runs backwards, starts at nothing and ends at everything.
pub proof fn progress_runs_forwards(written: nat, later: nat, total: nat)
    requires
        written <= later,
    ensures
        progress(written, total) <= progress(later, total) <= 100,
        progress(0, total) == 0,
        total > 0 ==> progress(total, total) == 100,
{
    if total > 0 {
        vstd::arithmetic::div_mod::lemma_div_is_ordered(
            (written * 100) as int,
            (later * 100) as int,
            total as int,
        );
        vstd::arithmetic::div_mod::lemma_div_basics(total as int);
        vstd::arithmetic::div_mod::lemma_div_multiples_vanish(100, total as int);
        assert(total * 100 == 100 * total) by (nonlinear_arith);
    }
}

/// Without a portal password no upload is let in, whatever else holds.
pub proof fn an_open_portal_takes_no_firmware(busy: bool, content_len: Option<u64>, slot: usize)
    ensures
        refusal(false, busy, content_len, slot) == Some(OtaReply::NoPassword),
{
}

/// The spare slot is not opened while the running image is known to be
/// provisional: it has been marked valid by then, with nothing left to prove.
pub proof fn the_running_image_is_confirmed_first(
    upload: UploadView,
    event: UploadEvent,
    health: health::HealthView,
    display: display::DisplayView,
)
    ensures
        upload_step(upload, event, health, display).act is OpenSlot ==> {
            ||| event is SlotsReached && event->provisional != Some(true)
            ||| event is Marked && upload_step(upload, event, health, display).health
                == health::settled_health()
        },
{
}

/// Nothing is written to the slot that has not been looked at, and never more
/// than belongs there.
pub proof fn a_piece_is_looked_at_before_it_is_written(
    upload: UploadView,
    event: UploadEvent,
    health: health::HealthView,
    display: display::DisplayView,
)
    requires
        upload.well_formed(),
    ensures
        upload_step(upload, event, health, display).act is Flash ==> {
            &&& event is Read
            &&& chunk_refusal(upload.transfer.head, event->Read_0@) is None
            &&& upload.transfer.written + event->Read_0@.len() <= upload.transfer.total
        },
{
}

/// An upload on a light, with what lies in the spare slot and the piece that was
/// read last.
pub struct UploadRun {
    pub upload: UploadView,
    pub health: health::HealthView,
    pub display: display::DisplayView,
    pub act: UploadAct,
    pub slot: Seq<u8>,
    pub piece: Seq<u8>,
}

/// An upload that was just let in, on a light that is otherwise in the given
/// state.
pub open spec fn run_start(
    total: nat,
    expect: OtaExpect,
    health: health::HealthView,
    display: display::DisplayView,
) -> UploadRun {
    UploadRun {
        upload: fresh_upload(total, expect),
        health,
        display,
        act: UploadAct::Nothing,
        slot: Seq::empty(),
        piece: Seq::empty(),
    }
}

/// One event further. The piece that was read last is in the slot once it has
/// been written there.
pub open spec fn run_step(run: UploadRun, event: UploadEvent) -> UploadRun {
    let step = upload_step(run.upload, event, run.health, run.display);
    UploadRun {
        upload: step.upload,
        health: step.health,
        display: step.display,
        act: step.act,
        slot: if run.upload.phase is Flashing && event is Flashed {
            run.slot + run.piece
        } else {
            run.slot
        },
        piece: if step.act is Flash {
            event->Read_0@
        } else {
            run.piece
        },
    }
}

/// An upload after any events.
pub open spec fn upload_run(start: UploadRun, events: Seq<UploadEvent>) -> UploadRun
    decreases events.len(),
{
    if events.len() == 0 {
        start
    } else {
        run_step(upload_run(start, events.drop_last()), events.last())
    }
}

/// What lies in the slot is as long as it is counted to be, and its head is the
/// one that was judged.
spec fn slot_is_judged(run: UploadRun, slot: Seq<u8>) -> bool {
    &&& run.slot.len() == run.upload.transfer.written
    &&& run.upload.transfer.head == text::truncated(slot, OTA_HEADER_PEEK as int)
    &&& image_problem(slot) is None
}

spec fn run_is_in_order(start: UploadRun, run: UploadRun) -> bool {
    &&& run.upload.well_formed()
    &&& run.upload.expect == start.upload.expect
    &&& run.upload.transfer.total == start.upload.transfer.total
    &&& run.act is Complete ==> run.upload.phase is Completing
    &&& run.act is Answer ==> run.upload.phase is Over
    &&& match run.upload.phase {
        UploadPhase::LetIn
        | UploadPhase::Reaching
        | UploadPhase::Confirming
        | UploadPhase::Opening => {
            &&& slot_is_judged(run, run.slot)
            &&& run.display == start.display
            &&& run.health.stored == start.health.stored || run.health.stored is None
        },
        UploadPhase::Reading => {
            &&& slot_is_judged(run, run.slot)
            &&& run.health.stored == start.health.stored || run.health.stored is None
        },
        UploadPhase::Flashing { n } => {
            &&& slot_is_judged(run, run.slot + run.piece)
            &&& run.piece.len() == n
            &&& run.health.stored == start.health.stored || run.health.stored is None
        },
        UploadPhase::Aborting => {
            &&& run.upload.failure != Some(OtaReply::Written)
            &&& run.health.stored == start.health.stored || run.health.stored is None
        },
        UploadPhase::Completing => {
            &&& slot_is_judged(run, run.slot)
            &&& run.slot.len() == run.upload.transfer.total
            &&& run.health.stored == Some(health::expectation_code(run.upload.expect))
        },
        UploadPhase::Over => run.act matches UploadAct::Answer(reply) ==> if reply
            == OtaReply::Written {
            &&& slot_is_judged(run, run.slot)
            &&& run.slot.len() == run.upload.transfer.total
            &&& run.health.stored == Some(health::expectation_code(run.upload.expect))
            &&& run.display.update == Some(100u8)
        } else {
            &&& run.display.update is None || run.display == start.display
            &&& run.health.stored == start.health.stored || run.health.stored is None
        },
    }
}

proof fn a_step_stays_in_order(start: UploadRun, run: UploadRun, event: UploadEvent)
    requires
        run_is_in_order(start, run),
    ensures
        run_is_in_order(start, run_step(run, event)),
{
    let after = run_step(run, event);
    match (run.upload.phase, event) {
        (UploadPhase::Reading, UploadEvent::Read(chunk)) => {
            if after.act is Flash {
                let head = run.upload.transfer.head;
                let whole = run.slot + chunk@;
                assert(head_with(head, chunk@) =~= text::truncated(whole, OTA_HEADER_PEEK as int));
                the_head_decides(whole);
                the_head_decides(run.slot);
                if head.len() >= OTA_HEADER_PEEK {
                    assert(head_with(head, chunk@) =~= head);
                }
            }
        },
        _ => {},
    }
}

/// Only the head of an image is judged.
proof fn the_head_decides(image: Seq<u8>)
    ensures
        image_problem(image) == image_problem(text::truncated(image, OTA_HEADER_PEEK as int)),
{
}

proof fn a_run_stays_in_order(start: UploadRun, events: Seq<UploadEvent>)
    requires
        run_is_in_order(start, start),
    ensures
        run_is_in_order(start, upload_run(start, events)),
    decreases events.len(),
{
    if events.len() > 0 {
        a_run_stays_in_order(start, events.drop_last());
        a_step_stays_in_order(start, upload_run(start, events.drop_last()), events.last());
    }
}

/// Whatever happens to an upload, the boot pointer is moved only once all of the
/// image lies in the slot, nothing is known to be wrong with it, and what it has
/// to prove is recorded.
pub proof fn the_boot_pointer_moves_last(
    total: nat,
    expect: OtaExpect,
    health: health::HealthView,
    display: display::DisplayView,
    events: Seq<UploadEvent>,
)
    requires
        total <= usize::MAX,
    ensures
        ({
            let run = upload_run(run_start(total, expect, health, display), events);
            run.act is Complete ==> {
                &&& run.slot.len() == total
                &&& image_problem(run.slot) is None
                &&& run.health.stored == Some(health::expectation_code(expect))
            }
        }),
{
    let start = run_start(total, expect, health, display);
    assert(text::truncated(start.slot, OTA_HEADER_PEEK as int) =~= Seq::<u8>::empty());
    a_run_stays_in_order(start, events);
}

/// An upload that is answered with anything but success leaves no bar on the
/// panels, and nothing to prove that was not there before. One that is answered
/// with success has left a whole image in the slot, and what it has to prove.
pub proof fn an_answer_says_what_was_left(
    total: nat,
    expect: OtaExpect,
    health: health::HealthView,
    display: display::DisplayView,
    events: Seq<UploadEvent>,
)
    requires
        total <= usize::MAX,
        display.update is None,
    ensures
        ({
            let run = upload_run(run_start(total, expect, health, display), events);
            run.act matches UploadAct::Answer(reply) ==> if reply == OtaReply::Written {
                &&& run.slot.len() == total
                &&& image_problem(run.slot) is None
                &&& run.health.stored == Some(health::expectation_code(expect))
                &&& run.display.update == Some(100u8)
            } else {
                &&& run.display.update is None
                &&& run.health.stored == health.stored || run.health.stored is None
            }
        }),
{
    let start = run_start(total, expect, health, display);
    assert(text::truncated(start.slot, OTA_HEADER_PEEK as int) =~= Seq::<u8>::empty());
    a_run_stays_in_order(start, events);
}

/// An upload is started just if it says how long it is, and that is at least a
/// quarter of a megabyte and fits the slot.
pub proof fn only_a_plausible_size_is_started(len: u64, slot: usize)
    ensures
        size_problem(None, slot) == Some(UploadProblem::LengthRequired),
        size_problem(Some(len), slot) is None <==> 262_144 <= len && len <= slot,
        len < 262_144 ==> size_problem(Some(len), slot) == Some(UploadProblem::TooSmall(len)),
        len >= 262_144 && len > slot ==> size_problem(Some(len), slot) == Some(
            UploadProblem::TooLarge(len, slot),
        ),
{
}

/// A head that shows all that is looked at passes just if it starts with the
/// byte of an application image, is built for this chip and carries the
/// application descriptor, byte for byte.
pub proof fn a_good_head_is_known_by_its_bytes(head: Seq<u8>)
    requires
        head.len() >= 36,
    ensures
        image_problem(head) is None <==> {
            &&& head[0] == 0xE9
            &&& head[12] == 0 && head[13] == 0
            &&& head[32] == 0x32 && head[33] == 0x54 && head[34] == 0xCD && head[35] == 0xAB
        },
        head[0] != 0xE9 ==> image_problem(head) == Some(ImageProblem::BadMagic),
        head[0] == 0xE9 && (head[12] != 0 || head[13] != 0) ==> image_problem(head) == Some(
            ImageProblem::WrongChip,
        ),
{
}

/// The bar shows what part of the image has been written, in percent, from the
/// moment the slot is open until the last piece is in it.
pub proof fn the_bar_follows_the_upload(
    total: nat,
    expect: OtaExpect,
    health: health::HealthView,
    display: display::DisplayView,
    events: Seq<UploadEvent>,
)
    requires
        0 < total <= usize::MAX,
    ensures
        ({
            let run = upload_run(run_start(total, expect, health, display), events);
            let phase = run.upload.phase;
            phase is Reading || phase is Flashing || phase is Completing ==> {
                &&& run.display.update == Some((run.slot.len() * 100 / total) as u8)
                &&& 0 <= run.slot.len() * 100 / total <= 100
            }
        }),
{
    let start = run_start(total, expect, health, display);
    assert(text::truncated(start.slot, OTA_HEADER_PEEK as int) =~= Seq::<u8>::empty());
    bar_is_in_step(start, events);
    a_run_stays_in_order(start, events);
    let run = upload_run(start, events);
    let written = run.upload.transfer.written;
    progress_runs_forwards(written, total, total);
    if written <= total {
        percent_is_no_more_than_all(written, total);
    }
}

/// The percentage is a hundred times what has been written by what there is,
/// rounded down.
pub proof fn percent_is_no_more_than_all(written: nat, total: nat)
    requires
        0 < total,
        written <= total,
    ensures
        progress(written, total) == written * 100 / total,
        0 <= written * 100 / total <= 100,
{
    vstd::arithmetic::div_mod::lemma_div_is_ordered(
        (written * 100) as int,
        (total * 100) as int,
        total as int,
    );
    vstd::arithmetic::div_mod::lemma_div_multiples_vanish(100, total as int);
    assert(total * 100 == 100 * total) by (nonlinear_arith);
    vstd::arithmetic::div_mod::lemma_div_pos_is_pos((written * 100) as int, total as int);
}

/// What is on the bar is what was last put there.
spec fn bar_agrees(run: UploadRun) -> bool {
    let transfer = run.upload.transfer;
    match run.upload.phase {
        UploadPhase::LetIn
        | UploadPhase::Reaching
        | UploadPhase::Confirming
        | UploadPhase::Opening => transfer.written == 0 && transfer.last_percent == 255,
        UploadPhase::Reading | UploadPhase::Flashing { n: _ } | UploadPhase::Completing => {
            &&& run.display.update == Some(progress(transfer.written, transfer.total) as u8)
            &&& transfer.last_percent == 255 && transfer.written == 0 || transfer.last_percent
                == progress(transfer.written, transfer.total)
        },
        _ => true,
    }
}

proof fn bar_is_in_step(start: UploadRun, events: Seq<UploadEvent>)
    requires
        bar_agrees(start),
        start.upload.phase is LetIn,
        start.upload.well_formed(),
        start.upload.transfer.total > 0,
        run_is_in_order(start, start),
    ensures
        bar_agrees(upload_run(start, events)),
    decreases events.len(),
{
    if events.len() > 0 {
        let before = upload_run(start, events.drop_last());
        bar_is_in_step(start, events.drop_last());
        a_run_stays_in_order(start, events.drop_last());
        let transfer = before.upload.transfer;
        progress_runs_forwards(0, transfer.written, transfer.total);
        match before.upload.phase {
            UploadPhase::Flashing { n } => {
                progress_runs_forwards(
                    transfer.written,
                    transfer.written + n as nat,
                    transfer.total,
                );
            },
            _ => {},
        }
    }
}

/// While an upload is running every other one is turned away, whatever its size;
/// otherwise only its size counts.
pub proof fn a_second_upload_is_turned_away(content_len: Option<u64>, slot: usize)
    ensures
        refusal(true, true, content_len, slot) == Some(OtaReply::Busy),
        refusal(true, false, content_len, slot) is None <==> (content_len matches Some(
            len,
        ) && 262_144 <= len && len <= slot),
{
}

/// A piece that cannot be taken is refused for what is wrong with it: that the
/// body has ended, or what the head of the image shows with it.
pub proof fn a_refusal_names_what_is_wrong(head: Seq<u8>, chunk: Seq<u8>)
    requires
        head.len() <= 96,
        image_problem(head) is None,
    ensures
        chunk_refusal(head, Seq::empty()) == Some(OtaReply::EndedEarly),
        chunk.len() > 0 ==> chunk_refusal(head, chunk) == (match image_problem(head + chunk) {
            Some(problem) => Some(OtaReply::Image(problem)),
            None => None,
        }),
{
    the_head_decides(head + chunk);
    if head.len() == 96 {
        assert(text::truncated(head + chunk, OTA_HEADER_PEEK as int) =~= head);
    }
}

/// An upload that fails is answered with the reason: whatever makes it be given
/// up is what it is answered with once the slot has been given up.
pub proof fn a_failure_is_answered_with_its_reason(
    upload: UploadView,
    event: UploadEvent,
    health: health::HealthView,
    display: display::DisplayView,
    later: health::HealthView,
    shown: display::DisplayView,
)
    ensures
        ({
            let step = upload_step(upload, event, health, display);
            let ended = upload_step(step.upload, UploadEvent::Aborted, later, shown);
            &&& step.act is Abort ==> {
                &&& ended.act is Answer
                &&& event matches UploadEvent::ReadFailed(why) ==> ended.act->Answer_0
                    == OtaReply::Stalled(why)
                &&& event matches UploadEvent::FlashFailed(why) ==> ended.act->Answer_0
                    == OtaReply::FlashWrite(why)
                &&& event matches UploadEvent::Read(chunk) ==> Some(ended.act->Answer_0)
                    == chunk_refusal(upload.transfer.head, chunk@)
                &&& event is ReadFailed || event is FlashFailed || event is Read
            }
            &&& upload.phase is Reading && event is ReadFailed ==> step.act is Abort
            &&& upload.phase is Flashing && event is FlashFailed ==> step.act is Abort
            &&& upload.phase is Reaching && event is NoSlots ==> step.act == UploadAct::Answer(
                OtaReply::NoSlots,
            )
            &&& upload.phase is Opening && event is OpenFailed ==> step.act == UploadAct::Answer(
                OtaReply::SlotClosed,
            )
            &&& upload.phase is Completing && event is Completed ==> step.act == UploadAct::Answer(
                OtaReply::Written,
            )
            &&& upload.phase is Completing && event is CompletionFailed ==> step.act
                == UploadAct::Answer(OtaReply::Rejected)
        }),
{
}

/// An upload that nothing is wrong with goes on to the end: the slots are
/// reached, a provisional image is marked, the slot is opened, and then pieces of
/// up to four kilobytes are read and written until nothing is left, when the boot
/// pointer moves.
pub proof fn a_good_upload_goes_on(
    upload: UploadView,
    event: UploadEvent,
    health: health::HealthView,
    display: display::DisplayView,
)
    requires
        upload.well_formed(),
    ensures
        ({
            let act = upload_step(upload, event, health, display).act;
            let left = upload.transfer.total - upload.transfer.written;
            let next = |left: int|
                if left == 0 {
                    UploadAct::Complete
                } else if left < 4096 {
                    UploadAct::Read(left as usize)
                } else {
                    UploadAct::Read(4096)
                };
            &&& upload.phase is LetIn && event is LetIn ==> act is ReachSlots
            &&& upload.phase is Reaching ==> (event matches UploadEvent::SlotsReached {
                provisional,
            } ==> if provisional == Some(true) {
                act is MarkValid
            } else {
                act is OpenSlot
            })
            &&& upload.phase is Confirming && event is Marked ==> act is OpenSlot
            &&& upload.phase is Opening && event is Opened ==> act == next(left)
            &&& upload.phase is Reading ==> (event matches UploadEvent::Read(chunk) ==> (0
                < chunk@.len() <= left && chunk@.len() <= 4096 && image_problem(
                upload.transfer.head + chunk@,
            ) is None ==> act is Flash))
            &&& upload.phase matches UploadPhase::Flashing { n } ==> (event is Flashed ==> act
                == next(left - n))
        }),
{
    if upload.phase is Reading && event is Read {
        the_head_decides(upload.transfer.head + event->Read_0@);
    }
}

} // verus!
