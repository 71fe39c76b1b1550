use rpi_ws281x_c::{Channel, DriverBuilder, DriverState, ErrorCode, PiInfo, PwmPin, SpiPin};

fn pwm_driver() -> rpi_ws281x_c::Driver {
    let ch = Channel::set_pwm(PwmPin::Pwm0_1).set_led_count(10).set_brightness(128);
    DriverBuilder::new().channel1(ch).build().unwrap()
}

#[test]
fn render_and_wait_follow_the_hardware_outcome() {
    let mut d = pwm_driver();
    assert_eq!(d.state, DriverState::Unopened);
    assert_eq!(d.render(ErrorCode::Success), Ok(()));
    assert_eq!(d.state, DriverState::Active);
    assert!(d.pending_transfer);
    assert_eq!(d.wait(ErrorCode::Dma), Err(ErrorCode::Dma));
    assert_eq!(d.wait(ErrorCode::Success), Ok(()));
    assert!(!d.pending_transfer);
    assert_eq!(d.render(ErrorCode::OutOfMemory), Err(ErrorCode::OutOfMemory));
}

#[test]
fn spi_transfer_is_synchronous() {
    let ch = Channel::set_spi(SpiPin::Spi0).set_led_count(4);
    let mut d = DriverBuilder::new().channel1(ch).build().unwrap();
    assert_eq!(d.render(ErrorCode::Success), Ok(()));
    assert!(!d.pending_transfer);
}

#[test]
fn stop_is_idempotent_and_releases_once() {
    let mut d = pwm_driver();
    assert_eq!(d.render(ErrorCode::Success), Ok(()));
    assert!(d.stop());
    assert_eq!(d.state, DriverState::Stopped);
    assert!(!d.stop());
    assert!(!d.stop());
    assert!(!d.stop());
    assert_eq!(d.state, DriverState::Stopped);
}

#[test]
fn stop_before_hardware_claim_releases_nothing() {
    let mut d = pwm_driver();
    assert!(!d.stop());
    assert_eq!(d.state, DriverState::Stopped);
}

#[test]
fn stopped_driver_refuses_every_operation() {
    let mut d = pwm_driver();
    assert_eq!(d.render(ErrorCode::Success), Ok(()));
    d.stop();
    assert_eq!(d.render(ErrorCode::Success), Err(ErrorCode::Generic));
    assert_eq!(d.wait(ErrorCode::Success), Err(ErrorCode::Generic));
    assert!(!d.set_gamma_factor());
    // The buffers are gone with the hardware.
    assert_eq!(d.channel1().led(0), None);
    // The configuration stays readable.
    assert_eq!(d.channel1().count, 10);
}

#[test]
fn gamma_request_changes_no_count_and_no_layout() {
    let mut d = pwm_driver();
    assert_eq!(d.render(ErrorCode::Success), Ok(()));
    let count = d.channel1().count;
    let strip = d.channel1().strip_type;
    assert!(d.set_gamma_factor());
    assert!(d.custom_gamma);
    assert_eq!(d.channel1().count, count);
    assert_eq!(d.channel1().strip_type, strip);
    assert_eq!(d.channel1().led(0), Some(0));
}

#[test]
fn brightness_change_on_a_driver_channel_keeps_the_buffer() {
    let mut d = pwm_driver();
    d.channel1_mut().change_brightness(40);
    assert_eq!(d.channel1().get_brightness(), 40);
    assert_eq!(d.channel1().count, 10);
    assert_eq!(d.channel1().pixels.len(), 10);
}

#[test]
fn full_render_cycle_on_a_supported_host() {
    // Channel one on the primary PWM pin, 10 pixels, RGB layout,
    // brightness 128; first pixel bright red; the hardware accepts
    // the claim and completes the transfer.
    let ch = Channel::set_pwm(PwmPin::Pwm0_1)
        .set_led_count(10)
        .set_strip_rgb()
        .set_brightness(128);
    let mut d = DriverBuilder::new().channel1(ch).build().unwrap();
    let red = d.channel1().strip_type.pack(255, 0, 0);
    assert!(d.channel1_mut().set_led(0, red));
    assert_eq!(d.channel1().led(0), Some(0x00ff_0000));
    assert_eq!(d.render(ErrorCode::Success), Ok(()));
    assert_eq!(d.wait(ErrorCode::Success), Ok(()));
}

#[test]
fn full_render_cycle_on_an_unsupported_host() {
    // Same configuration, but the hardware claim fails: the failure is an
    // error value, the driver stays unopened, and teardown is still safe.
    let ch = Channel::set_pwm(PwmPin::Pwm0_1)
        .set_led_count(10)
        .set_strip_rgb()
        .set_brightness(128);
    let mut d = DriverBuilder::new().channel1(ch).build().unwrap();
    assert_eq!(d.render(ErrorCode::HwNotSupported), Err(ErrorCode::HwNotSupported));
    assert_eq!(d.state, DriverState::Unopened);
    assert!(!d.stop());
}

#[test]
fn board_descriptor_is_fully_populated_or_absent() {
    // The probe hands over either every field at once or nothing; a
    // descriptor built from probed facts carries them all.
    let info = PiInfo::new(0xa02082, 0x3f00_0000, 0xc000_0000, String::from("Pi 3 Model B"));
    assert_eq!(info.revision(), 0xa02082);
    assert_eq!(info.periph_base(), 0x3f00_0000);
    assert_eq!(info.video_core_base(), 0xc000_0000);
    assert_eq!(info.description(), "Pi 3 Model B");
    let none: Option<PiInfo> = None;
    assert!(none.is_none());
}
