use rpi_ws281x_c::{Channel, Driver, DriverBuilder, DriverState, ErrorCode, PcmPin, PwmPin};

#[test]
fn defaults_are_the_documented_ones() {
    let b = DriverBuilder::new();
    assert_eq!(b.freq, 800_000);
    assert_eq!(b.dma_channel, 10);
    assert_eq!(b.render_wait_time, 0);
    assert_eq!(b.ch1.count, 0);
    assert_eq!(b.ch2.count, 0);
    let b = Driver::builder();
    assert_eq!(b.freq, 800_000);
    assert_eq!(b.dma_channel, 10);
}

#[test]
fn setters_replace_their_field_only() {
    let b = DriverBuilder::new().freq(400_000).dma(5).render_wait_time(300);
    assert_eq!(b.freq, 400_000);
    assert_eq!(b.dma_channel, 5);
    assert_eq!(b.render_wait_time, 300);
    assert_eq!(b.ch1.count, 0);
}

#[test]
fn secondary_pwm_pin_is_rejected_on_slot_one() {
    let ch = Channel::set_pwm(PwmPin::Pwm1_1).set_led_count(3);
    let r = DriverBuilder::new().channel1(ch).build();
    assert!(matches!(r, Err(ErrorCode::IllegalGpio)));
    let ch = Channel::set_pwm(PwmPin::Pwm1_2).set_led_count(3);
    let r = DriverBuilder::new().channel1(ch).build();
    assert!(matches!(r, Err(ErrorCode::IllegalGpio)));
}

#[test]
fn primary_pwm_pin_is_rejected_on_slot_two() {
    // Channel one on PWM as well: the pairing rule still refuses slot two.
    let one = Channel::set_pwm(PwmPin::Pwm0_1).set_led_count(3);
    let two = Channel::set_pwm(PwmPin::Pwm0_2).set_led_count(3);
    let r = DriverBuilder::new().channel1(one).channel2(two).build();
    assert!(matches!(r, Err(ErrorCode::IllegalGpio)));
}

#[test]
fn paired_pwm_channels_are_accepted() {
    let one = Channel::set_pwm(PwmPin::Pwm0_1).set_led_count(3);
    let two = Channel::set_pwm(PwmPin::Pwm1_1).set_led_count(4);
    let d = DriverBuilder::new().channel1(one).channel2(two).build().unwrap();
    assert_eq!(d.ch1.gpio, 12);
    assert_eq!(d.ch2.gpio, 13);
    assert_eq!(d.state, DriverState::Unopened);
}

#[test]
fn non_pwm_second_slot_is_accepted() {
    let one = Channel::set_pwm(PwmPin::Pwm0_1).set_led_count(3);
    let two = Channel::set_pcm(PcmPin::Board).set_led_count(2);
    let r = DriverBuilder::new().channel1(one).channel2(two).build();
    assert!(r.is_ok());
}

#[test]
fn build_allocates_zeroed_buffers() {
    let one = Channel::set_pwm(PwmPin::Pwm0_1).set_led_count(5);
    let d = DriverBuilder::new().channel1(one).build().unwrap();
    assert_eq!(d.channel1().pixels.len(), 5);
    for i in 0..5 {
        assert_eq!(d.channel1().led(i), Some(0));
    }
    assert_eq!(d.channel1().led(5), None);
    // The disabled second slot stays without a buffer.
    assert_eq!(d.channel2().led(0), None);
    assert_eq!(d.freq, 800_000);
    assert!(!d.pending_transfer);
}
