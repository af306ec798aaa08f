//! Firmware uploads and rollback.

use traffic_light_display::display::DisplayDriver;
use traffic_light_display::health::{arm_health_deadline, deadline_outcome, health_verdict};
use traffic_light_display::health::{fallback_expectation, fallback_outcome};
use traffic_light_display::health::{setup_outcome, station_outcome};
use traffic_light_display::health::{BootOutcome, Health, HealthVerdict, OtaExpect};
use traffic_light_display::ota::{check_upload_size, ota_progress_percent, validate_image_prefix};
use traffic_light_display::ota::{ota_slot_size, OtaInFlight, OtaReply, OtaTransfer};
use traffic_light_display::ota::{ImageProblem, UploadProblem};
use traffic_light_display::ota::{Upload, UploadAct, UploadEvent, UploadPhase};
use traffic_light_display::portal::PortalMode;
use traffic_light_display::ota::{ESP_APP_DESC_MAGIC, ESP_IMAGE_MAGIC, OTA_HEADER_PEEK};

const SLOT: usize = 0x1F_0000;

// A synthetic image header: magic, esp32 chip id, app descriptor magic.
fn header_bytes() -> Vec<u8> {
    let mut head = vec![0u8; OTA_HEADER_PEEK];
    head[0] = ESP_IMAGE_MAGIC;
    head[12] = 0;
    head[13] = 0;
    head[32..36].copy_from_slice(&ESP_APP_DESC_MAGIC.to_le_bytes());
    head
}

#[test]
fn a_real_looking_header_is_accepted() {
    assert_eq!(validate_image_prefix(&header_bytes()), Ok(()));
}

#[test]
fn a_prefix_too_short_to_judge_is_not_yet_a_failure() {
    // The header arrives a chunk at a time, so "not enough bytes to tell"
    // has to mean "keep going", not "reject".
    let head = header_bytes();
    assert_eq!(validate_image_prefix(&[]), Ok(()));
    assert_eq!(validate_image_prefix(&head[..1]), Ok(()));
    assert_eq!(validate_image_prefix(&head[..13]), Ok(()));
    assert_eq!(validate_image_prefix(&head[..35]), Ok(()));
}

#[test]
fn the_wrong_file_entirely_is_caught_on_the_first_byte() {
    let mut head = header_bytes();
    head[0] = b'#';
    assert_eq!(validate_image_prefix(&head), Err(ImageProblem::BadMagic));
    // ...and from a single byte, before anything is written to flash.
    assert_eq!(
        validate_image_prefix(&head[..1]),
        Err(ImageProblem::BadMagic)
    );
}

#[test]
fn an_image_for_another_chip_is_refused() {
    let mut head = header_bytes();
    head[12] = 9; // esp32-c3 and friends
    assert_eq!(validate_image_prefix(&head), Err(ImageProblem::WrongChip));
}

#[test]
fn a_bootloader_or_merged_image_is_refused() {
    let mut head = header_bytes();
    head[32..36].copy_from_slice(&0xDEAD_BEEFu32.to_le_bytes());
    assert_eq!(
        validate_image_prefix(&head),
        Err(ImageProblem::NoAppDescriptor)
    );
}

#[test]
fn a_body_of_a_plausible_size_is_accepted() {
    assert_eq!(check_upload_size(Some(1_060_000), SLOT), Ok(1_060_000));
    assert_eq!(check_upload_size(Some(SLOT as u64), SLOT), Ok(SLOT));
}

#[test]
fn a_chunked_body_is_refused_rather_than_read_forever() {
    assert_eq!(
        check_upload_size(None, SLOT),
        Err(UploadProblem::LengthRequired)
    );
    assert_eq!(check_upload_size(None, SLOT).unwrap_err().status(), 411);
}

#[test]
fn something_far_too_small_to_be_firmware_is_refused() {
    assert_eq!(
        check_upload_size(Some(0), SLOT),
        Err(UploadProblem::TooSmall(0))
    );
    assert_eq!(
        check_upload_size(Some(4096), SLOT),
        Err(UploadProblem::TooSmall(4096))
    );
}

#[test]
fn an_image_that_will_not_fit_is_refused_before_a_byte_is_written() {
    // The likely real mistake: a padded or merged image, which comes out
    // flash-sized rather than app-sized.
    let four_mb = 4 * 1024 * 1024;
    let problem = check_upload_size(Some(four_mb), SLOT).unwrap_err();
    assert_eq!(problem, UploadProblem::TooLarge(four_mb, SLOT));
    assert_eq!(problem.status(), 413);
    assert!(problem.message().contains("merged"));
    assert_eq!(
        check_upload_size(Some(SLOT as u64 + 1), SLOT)
            .unwrap_err()
            .status(),
        413
    );
}

#[test]
fn progress_runs_from_nothing_to_everything() {
    assert_eq!(ota_progress_percent(0, 1000), 0);
    assert_eq!(ota_progress_percent(500, 1000), 50);
    assert_eq!(ota_progress_percent(1000, 1000), 100);
}

#[test]
fn progress_survives_a_big_image_and_an_empty_one() {
    // written * 100 overflows a 32-bit multiply at these sizes, which is
    // why the arithmetic is done in u64.
    assert_eq!(ota_progress_percent(1_000_000, 1_063_430), 94);
    assert_eq!(ota_progress_percent(0, 0), 0, "no divide by zero");
    assert_eq!(ota_progress_percent(10, 5), 100, "clamped, not 200");
}

#[test]
fn an_unknown_expectation_never_causes_a_rollback() {
    // A byte from some future firmware, or a half-written one, must not be
    // read as a reason to revert. Rolling back on a guess is worse than
    // not rolling back at all.
    for stored in [None, Some(0), Some(3), Some(7), Some(255)] {
        assert_eq!(OtaExpect::from_nvs(stored), OtaExpect::Nothing);
    }
    assert_eq!(OtaExpect::from_nvs(Some(1)), OtaExpect::Station);
    assert_eq!(OtaExpect::from_nvs(Some(2)), OtaExpect::Ap);
}

#[test]
fn the_expectation_survives_a_round_trip_through_nvs() {
    for expect in [OtaExpect::Nothing, OtaExpect::Station, OtaExpect::Ap] {
        assert_eq!(OtaExpect::from_nvs(Some(expect.as_u8())), expect);
    }
}

#[test]
fn an_image_that_promised_nothing_is_always_kept() {
    // Flashed over serial, or already confirmed once.
    for outcome in [
        BootOutcome::Station,
        BootOutcome::StationNoPortal,
        BootOutcome::ApRequested,
        BootOutcome::ApFallback,
        BootOutcome::ApNoPortal,
    ] {
        assert_eq!(
            health_verdict(OtaExpect::Nothing, outcome),
            HealthVerdict::MarkValid,
            "{:?}",
            outcome
        );
    }
}

#[test]
fn an_image_pushed_over_the_network_must_get_back_on_it() {
    // This is the case the feature exists for: without it the boot-time
    // fallback into setup mode makes an unreachable image look healthy.
    assert_eq!(
        health_verdict(OtaExpect::Station, BootOutcome::ApFallback),
        HealthVerdict::RollBack
    );
    assert_eq!(
        health_verdict(OtaExpect::Station, BootOutcome::Station),
        HealthVerdict::MarkValid
    );
}

#[test]
fn someone_holding_the_button_is_not_the_images_fault() {
    assert_eq!(
        health_verdict(OtaExpect::Station, BootOutcome::ApRequested),
        HealthVerdict::MarkValid
    );
}

#[test]
fn an_image_nobody_could_replace_is_rolled_back() {
    // On the network but not serving: no way in over the air, which is
    // precisely what rollback is for.
    assert_eq!(
        health_verdict(OtaExpect::Station, BootOutcome::StationNoPortal),
        HealthVerdict::RollBack
    );
    assert_eq!(
        health_verdict(OtaExpect::Station, BootOutcome::ApNoPortal),
        HealthVerdict::RollBack
    );
}

#[test]
fn an_image_delivered_through_the_access_point_only_owes_an_access_point() {
    // It has no network to rejoin, so requiring one would revert every
    // update ever delivered in setup mode.
    assert_eq!(
        health_verdict(OtaExpect::Ap, BootOutcome::ApRequested),
        HealthVerdict::MarkValid
    );
    assert_eq!(
        health_verdict(OtaExpect::Ap, BootOutcome::ApFallback),
        HealthVerdict::MarkValid
    );
    assert_eq!(
        health_verdict(OtaExpect::Ap, BootOutcome::Station),
        HealthVerdict::MarkValid
    );
    assert_eq!(
        health_verdict(OtaExpect::Ap, BootOutcome::ApNoPortal),
        HealthVerdict::RollBack
    );
}

#[test]
fn a_refusal_says_why() {
    assert_eq!(
        ImageProblem::BadMagic.message(),
        "not an esp32 application image (bad magic byte)"
    );
    assert_eq!(
        ImageProblem::WrongChip.message(),
        "that image was built for a different chip"
    );
    assert_eq!(
        ImageProblem::NoAppDescriptor.message(),
        "no application descriptor -- is that a bootloader or a merged image?"
    );
    assert_eq!(
        UploadProblem::LengthRequired.message(),
        "a Content-Length is required; this server cannot take a chunked body"
    );
    assert_eq!(UploadProblem::TooSmall(4096).status(), 400);
    assert_eq!(
        UploadProblem::TooSmall(4096).message(),
        "4096 bytes is far too small to be this firmware"
    );
    assert_eq!(
        UploadProblem::TooLarge(u64::MAX, SLOT).message(),
        "18446744073709551615 bytes will not fit the 2031616 byte slot (a padded or merged image, perhaps?)"
    );
}

#[test]
fn an_image_for_a_chip_with_a_high_byte_is_refused() {
    let mut head = header_bytes();
    head[13] = 1;
    assert_eq!(validate_image_prefix(&head[..14]), Err(ImageProblem::WrongChip));
    assert_eq!(validate_image_prefix(&head[..13]), Ok(()));
}

#[test]
fn every_byte_of_the_descriptor_counts() {
    for at in 32..36 {
        let mut head = header_bytes();
        head[at] ^= 0x80;
        assert_eq!(validate_image_prefix(&head), Err(ImageProblem::NoAppDescriptor));
        assert_eq!(validate_image_prefix(&head[..35]), Ok(()));
    }
}

#[test]
fn the_slot_size_has_a_fallback() {
    assert_eq!(ota_slot_size(None), SLOT);
    assert_eq!(ota_slot_size(Some(12)), 12);
}

#[test]
fn answers_carry_a_status_and_a_line() {
    let all = [
        (OtaReply::NoPassword, 403, "set a portal password before uploading firmware\n"),
        (OtaReply::Busy, 409, "another update is already running\n"),
        (
            OtaReply::Size(UploadProblem::TooSmall(1)),
            400,
            "1 bytes is far too small to be this firmware\n",
        ),
        (OtaReply::NoSlots, 500, "no ota slots on this device\n"),
        (OtaReply::SlotClosed, 500, "could not open the spare slot\n"),
        (OtaReply::EndedEarly, 400, "the body ended early\n"),
        (OtaReply::Stalled("Timeout".to_string()), 408, "upload stalled: Timeout\n"),
        (
            OtaReply::Image(ImageProblem::WrongChip),
            400,
            "that image was built for a different chip\n",
        ),
        (OtaReply::FlashWrite("EIO".to_string()), 500, "flash write failed: EIO\n"),
        (OtaReply::Rejected, 400, "the image failed esp-idf's own checks\n"),
        (OtaReply::Written, 200, "ok\n"),
    ];
    for (reply, status, body) in all {
        assert_eq!(reply.status(), status);
        assert_eq!(reply.body(), body);
    }
}

#[test]
fn only_one_upload_at_a_time_and_none_without_a_password() {
    let mut flight = OtaInFlight::new();
    assert_eq!(flight.let_in(false, Some(1_000_000), SLOT).unwrap_err().status(), 403);
    assert_eq!(flight.let_in(true, None, SLOT).unwrap_err().status(), 411);
    assert_eq!(flight.let_in(true, Some(1_000_000), SLOT).ok(), Some(1_000_000));
    assert_eq!(flight.let_in(true, Some(1_000_000), SLOT).unwrap_err().status(), 409);
    assert_eq!(flight.let_in(true, None, SLOT).unwrap_err().status(), 409);
    assert_eq!(flight.let_in(false, Some(1_000_000), SLOT).unwrap_err().status(), 403);
    flight.release();
    assert!(flight.let_in(true, Some(1_000_000), SLOT).is_ok());
}

fn upload(image: &[u8], chunk: usize) -> Result<DisplayDriver, u16> {
    let mut display = DisplayDriver::new_simulated();
    let mut transfer = OtaTransfer::new(image.len());
    let mut at = 0;
    loop {
        let want = transfer.wants();
        if want == 0 {
            return Ok(display);
        }
        let n = want.min(chunk).min(image.len() - at);
        if let Some(reply) = transfer.receive(&image[at..at + n]) {
            return Err(reply.status());
        }
        transfer.flashed(n, &mut display);
        at += n;
    }
}

#[test]
fn an_upload_is_judged_alike_however_it_is_cut() {
    let mut image = header_bytes();
    image.resize(10_000, 0xff);
    for chunk in [1, 7, 13, 36, 95, 96, 97, 4096, 10_000] {
        let display = upload(&image, chunk).ok().unwrap();
        assert_eq!(display.update_progress(), Some(100));
    }
    image[33] = 0;
    for chunk in [1, 7, 13, 36, 95, 96, 97, 4096, 10_000] {
        assert_eq!(upload(&image, chunk).err(), Some(400));
    }
}

#[test]
fn what_follows_the_head_is_not_judged() {
    let mut image = header_bytes();
    image.resize(300, 0);
    image[200] = 1;
    assert!(upload(&image, 64).is_ok());
}

#[test]
fn a_transfer_asks_for_chunks_and_shows_its_progress() {
    let mut display = DisplayDriver::new_simulated();
    let mut transfer = OtaTransfer::new(10_000);
    assert_eq!(display.update_progress(), None);
    assert_eq!(transfer.wants(), 4096);
    let mut image = header_bytes();
    image.resize(10_000, 0);
    assert!(transfer.receive(&image[..4096]).is_none());
    transfer.flashed(4096, &mut display);
    assert_eq!(display.update_progress(), Some(40));
    assert!(transfer.receive(&image[4096..8192]).is_none());
    transfer.flashed(4096, &mut display);
    assert_eq!(display.update_progress(), Some(81));
    assert_eq!(transfer.wants(), 1808);
    assert_eq!(transfer.receive(&[]).unwrap().status(), 400);
}

// A light in the middle of an upload.
struct Light {
    health: Health,
    display: DisplayDriver,
    upload: Upload,
}

impl Light {
    fn new(total: usize, mode: &PortalMode, stored: Option<u8>) -> Light {
        Light {
            health: Health::boot(stored),
            display: DisplayDriver::new_simulated(),
            upload: Upload::new(total, mode),
        }
    }

    fn on_network(total: usize) -> Light {
        Light::new(total, &PortalMode::Connected { ip: "10.0.0.1".to_string() }, None)
    }

    fn next(&mut self, event: UploadEvent) -> UploadAct {
        self.upload.next(event, &mut self.health, &mut self.display)
    }

    // Bring the upload to the point where the body is read.
    fn open(&mut self) -> UploadAct {
        assert!(matches!(self.next(UploadEvent::LetIn), UploadAct::ReachSlots));
        let reached = UploadEvent::SlotsReached { provisional: Some(false) };
        assert!(matches!(self.next(reached), UploadAct::OpenSlot));
        self.next(UploadEvent::Opened)
    }
}

fn answered(act: UploadAct) -> Option<u16> {
    match act {
        UploadAct::Answer(reply) => Some(reply.status()),
        _ => None,
    }
}

// Send a whole image, in pieces as long as are asked for, and say what is to
// be done after the last.
fn send(light: &mut Light, image: &[u8]) -> UploadAct {
    let mut act = light.open();
    let mut at = 0;
    while let UploadAct::Read(want) = act {
        assert!(matches!(
            light.next(UploadEvent::Read(&image[at..at + want])),
            UploadAct::Flash
        ));
        assert_eq!(light.upload.phase(), UploadPhase::Flashing { n: want });
        at += want;
        act = light.next(UploadEvent::Flashed);
    }
    assert_eq!(at, image.len());
    act
}

fn image_of(len: usize) -> Vec<u8> {
    let mut image = header_bytes();
    image.resize(len, 0xff);
    image
}

#[test]
fn a_rejected_image_leaves_nothing_to_prove() {
    let image = image_of(10_000);
    let mut light = Light::on_network(image.len());
    assert!(matches!(send(&mut light, &image), UploadAct::Complete));
    assert_eq!(light.health.stored(), Some(1));
    assert_eq!(answered(light.next(UploadEvent::CompletionFailed)), Some(400));
    assert_eq!(light.health.stored(), None);
    assert_eq!(light.display.update_progress(), None);
    assert_eq!(light.upload.phase(), UploadPhase::Over);
}

#[test]
fn the_promise_is_recorded_before_the_boot_pointer_moves() {
    let image = image_of(10_000);
    let mut light = Light::new(image.len(), &PortalMode::Setup, None);
    assert_eq!(light.upload.expectation(), OtaExpect::Ap);
    assert!(matches!(light.open(), UploadAct::Read(4096)));
    assert_eq!(light.display.update_progress(), Some(0));
    assert_eq!(light.health.stored(), None);

    let mut light = Light::new(image.len(), &PortalMode::Setup, None);
    assert!(matches!(send(&mut light, &image), UploadAct::Complete));
    assert_eq!(light.health.stored(), Some(2));
    assert_eq!(light.display.update_progress(), Some(100));
    assert_eq!(answered(light.next(UploadEvent::Completed)), Some(200));
    assert_eq!(light.health.stored(), Some(2));
    assert_eq!(light.display.update_progress(), Some(100));
}

#[test]
fn a_provisional_image_is_confirmed_before_it_is_replaced() {
    let mut light = Light::new(1_000_000, &PortalMode::Setup, Some(1));
    assert!(matches!(light.next(UploadEvent::LetIn), UploadAct::ReachSlots));
    let reached = UploadEvent::SlotsReached { provisional: Some(true) };
    assert!(matches!(light.next(reached), UploadAct::MarkValid));
    // not before it has been marked
    assert_eq!(light.health.expectation(), OtaExpect::Station);
    assert!(matches!(light.next(UploadEvent::Marked), UploadAct::OpenSlot));
    assert_eq!(light.health.expectation(), OtaExpect::Nothing);
    assert!(light.health.is_settled());

    for provisional in [None, Some(false)] {
        let mut light = Light::new(1_000_000, &PortalMode::Setup, Some(1));
        light.next(UploadEvent::LetIn);
        let reached = UploadEvent::SlotsReached { provisional };
        assert!(matches!(light.next(reached), UploadAct::OpenSlot));
        assert_eq!(light.health.expectation(), OtaExpect::Station);
        assert!(!light.health.is_settled());
    }
}

#[test]
fn an_upload_that_never_opens_shows_no_bar() {
    let mut light = Light::on_network(1_000_000);
    light.next(UploadEvent::LetIn);
    assert_eq!(answered(light.next(UploadEvent::NoSlots)), Some(500));
    assert_eq!(light.display.update_progress(), None);

    let mut light = Light::on_network(1_000_000);
    light.next(UploadEvent::LetIn);
    light.next(UploadEvent::SlotsReached { provisional: None });
    match light.next(UploadEvent::OpenFailed) {
        UploadAct::Answer(reply) => {
            assert_eq!(reply.body(), "could not open the spare slot\n");
        }
        _ => panic!("not answered"),
    }
    assert_eq!(light.display.update_progress(), None);
}

#[test]
fn a_failed_upload_is_aborted_and_takes_the_bar_down() {
    let image = image_of(10_000);
    let mut bad = image.clone();
    bad[0] = 0;

    // before anything is in the slot, and after
    for pieces in [0, 1] {
        for failure in ["wrong", "ended", "stalled", "flash"] {
            let mut light = Light::on_network(image.len());
            light.open();
            if pieces == 1 {
                light.next(UploadEvent::Read(&image[..4096]));
                light.next(UploadEvent::Flashed);
                assert_eq!(light.display.update_progress(), Some(40));
            }
            let (act, status) = match failure {
                "wrong" if pieces == 0 => (light.next(UploadEvent::Read(&bad[..1])), 400),
                "stalled" => (light.next(UploadEvent::ReadFailed("Timeout".to_string())), 408),
                "flash" => {
                    let piece = &image[pieces * 4096..(pieces + 1) * 4096];
                    assert!(matches!(light.next(UploadEvent::Read(piece)), UploadAct::Flash));
                    (light.next(UploadEvent::FlashFailed("EIO".to_string())), 500)
                }
                _ => (light.next(UploadEvent::Read(&[])), 400),
            };
            assert!(matches!(act, UploadAct::Abort));
            assert!(light.display.update_progress().is_some());
            assert_eq!(answered(light.next(UploadEvent::Aborted)), Some(status));
            assert_eq!(light.display.update_progress(), None);
            assert_eq!(light.health.stored(), None);
        }
    }
}

#[test]
fn an_event_out_of_turn_changes_nothing() {
    let image = image_of(10_000);
    let mut light = Light::on_network(image.len());
    assert!(matches!(light.next(UploadEvent::Opened), UploadAct::Nothing));
    assert!(matches!(light.next(UploadEvent::Completed), UploadAct::Nothing));
    assert_eq!(light.upload.phase(), UploadPhase::LetIn);
    assert_eq!(light.display.update_progress(), None);
    light.open();
    // nothing can be completed that has not been written
    assert!(matches!(light.next(UploadEvent::Completed), UploadAct::Nothing));
    assert!(matches!(light.next(UploadEvent::Flashed), UploadAct::Nothing));
    // more than was asked for
    assert!(matches!(light.next(UploadEvent::Read(&image[..4097])), UploadAct::Nothing));
    assert_eq!(light.upload.phase(), UploadPhase::Reading);
    assert!(matches!(light.next(UploadEvent::Read(&image[..4096])), UploadAct::Flash));
}

#[test]
fn a_fallback_is_judged_once() {
    let mut health = Health::boot(Some(1));
    let expect = health.expectation();
    assert_eq!(fallback_outcome(), BootOutcome::ApFallback);
    assert_eq!(health.settle(expect, fallback_outcome()), Some(HealthVerdict::RollBack));
    // setup mode then owes nothing, whether or not its portal starts
    assert_eq!(fallback_expectation(), OtaExpect::Nothing);
    for portal_up in [true, false] {
        assert_eq!(
            health_verdict(fallback_expectation(), setup_outcome(portal_up)),
            HealthVerdict::MarkValid
        );
    }
}

#[test]
fn a_verdict_is_reached_once_and_forgets_the_promise() {
    let mut health = Health::boot(Some(1));
    assert_eq!(
        health.settle(OtaExpect::Station, BootOutcome::ApFallback),
        Some(HealthVerdict::RollBack)
    );
    assert_eq!(health.stored(), None);
    assert_eq!(health.settle(OtaExpect::Station, BootOutcome::Station), None);
    // the image that boots next is kept whatever happens
    let mut next = Health::boot(health.stored());
    let expect = next.expectation();
    assert_eq!(
        next.settle(expect, BootOutcome::ApNoPortal),
        Some(HealthVerdict::MarkValid)
    );
}

#[test]
fn a_deadline_is_set_only_for_a_promise() {
    assert!(!arm_health_deadline(OtaExpect::Nothing));
    assert!(arm_health_deadline(OtaExpect::Station));
    assert!(arm_health_deadline(OtaExpect::Ap));
    for expect in [OtaExpect::Station, OtaExpect::Ap] {
        assert_eq!(health_verdict(expect, deadline_outcome()), HealthVerdict::RollBack);
    }
}

#[test]
fn an_access_point_image_that_serves_no_portal_is_rolled_back() {
    // joining a network does not make up for a portal that will not start
    assert_eq!(
        health_verdict(OtaExpect::Ap, BootOutcome::StationNoPortal),
        HealthVerdict::RollBack
    );
    for expect in [OtaExpect::Station, OtaExpect::Ap] {
        for outcome in [station_outcome(false), setup_outcome(false)] {
            assert_eq!(health_verdict(expect, outcome), HealthVerdict::RollBack);
        }
    }
}

#[test]
fn outcomes_follow_the_portal() {
    assert_eq!(station_outcome(true), BootOutcome::Station);
    assert_eq!(station_outcome(false), BootOutcome::StationNoPortal);
    assert_eq!(setup_outcome(true), BootOutcome::ApRequested);
    assert_eq!(setup_outcome(false), BootOutcome::ApNoPortal);
}
