use rpi_ws281x_c::{Channel, PcmPin, PwmPin, SpiPin, StripType};

#[test]
fn disabled_channel_has_no_leds_and_no_pixel_access() {
    let mut ch = Channel::disabled();
    assert_eq!(ch.count, 0);
    assert_eq!(ch.gpio, 0);
    assert_eq!(ch.get_brightness(), 0);
    assert!(!ch.invert);
    assert_eq!(ch.strip_type, StripType::Rgb);
    assert_eq!(ch.led(0), None);
    assert!(!ch.set_led(0, 0xffffff));
    assert_eq!(ch.pixels.len(), 0);
}

#[test]
fn pin_constructors_bind_the_gpio() {
    assert_eq!(Channel::set_pwm(PwmPin::Pwm0_1).gpio, 12);
    assert_eq!(Channel::set_pwm(PwmPin::Pwm1_2).gpio, 19);
    assert_eq!(Channel::set_pcm(PcmPin::Board).gpio, 21);
    assert_eq!(Channel::set_pcm(PcmPin::P5).gpio, 31);
    assert_eq!(Channel::set_spi(SpiPin::Spi0).gpio, 10);
    let ch = Channel::set_pcm(PcmPin::Board);
    assert_eq!(ch.count, 0);
    assert_eq!(ch.get_brightness(), 0);
}

#[test]
fn configuration_chain_sets_each_field() {
    let ch = Channel::set_pwm(PwmPin::Pwm0_2)
        .set_led_count(30)
        .set_brightness(200)
        .set_invert(true)
        .set_strip_grb();
    assert_eq!(ch.gpio, 18);
    assert_eq!(ch.count, 30);
    assert_eq!(ch.get_brightness(), 200);
    assert!(ch.invert);
    assert_eq!(ch.strip_type, StripType::Grb);
}

#[test]
fn every_strip_setter_selects_its_layout() {
    let ch = Channel::disabled();
    let ch = ch.set_strip_rbg();
    assert_eq!(ch.strip_type, StripType::Rbg);
    let ch = ch.set_strip_grb();
    assert_eq!(ch.strip_type, StripType::Grb);
    let ch = ch.set_strip_gbr();
    assert_eq!(ch.strip_type, StripType::Gbr);
    let ch = ch.set_strip_bgr();
    assert_eq!(ch.strip_type, StripType::Bgr);
    let ch = ch.set_strip_brg();
    assert_eq!(ch.strip_type, StripType::Brg);
    let ch = ch.set_strip_rgb();
    assert_eq!(ch.strip_type, StripType::Rgb);
}

#[test]
fn brightness_change_leaves_count_and_layout_alone() {
    let mut ch = Channel::set_pwm(PwmPin::Pwm0_1).set_led_count(8).set_strip_bgr();
    ch.change_brightness(17);
    assert_eq!(ch.get_brightness(), 17);
    assert_eq!(ch.count, 8);
    assert_eq!(ch.strip_type, StripType::Bgr);
    assert_eq!(ch.gpio, 12);
}

#[test]
fn pixel_access_before_activation_is_refused() {
    // A configured but never built channel has no buffer yet.
    let mut ch = Channel::set_pwm(PwmPin::Pwm0_1).set_led_count(4);
    assert_eq!(ch.led(0), None);
    assert!(!ch.set_led(0, 1));
}
