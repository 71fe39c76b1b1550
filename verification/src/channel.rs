//! One physical strip output: its peripheral pin, pixel count, color layout,
//! polarity, brightness, and — once a driver owns it — the buffer of packed
//! pixel words. Building a channel and activating it are different stages:
//! until a driver allocates the buffer the channel carries configuration
//! only, and its pixels cannot be touched.

use vstd::prelude::*;

use crate::pins::{PcmPin, PwmPin, SpiPin};
use crate::strip::StripType;

verus! {

/// One strip output of a driver.
#[derive(Debug)]
pub struct Channel {
    /// GPIO number of the bound pin; zero while the channel is disabled.
    pub gpio: u32,
    /// Signal polarity: true inverts the output signal.
    pub invert: bool,
    /// Number of LEDs on the strip; zero means the channel is disabled.
    pub count: u16,
    /// Color layout of each pixel word.
    pub strip_type: StripType,
    /// Brightness scale applied to the whole channel at render time.
    pub brightness: u8,
    /// Packed pixel words, one per LED; empty until a driver allocates the
    /// buffer, and empty again once the driver is stopped.
    pub pixels: Vec<u32>,
}

impl Channel {
    /// The channel's pixel buffer is allocated and usable: the channel is
    /// enabled and the buffer holds exactly one word per LED.
    pub open spec fn is_active(self) -> bool {
        self.count > 0 && self.pixels@.len() == self.count as nat
    }

    /// The configuration fields of the two channels agree (everything but the
    /// pixel buffer).
    pub open spec fn same_config(self, other: Channel) -> bool {
        self.gpio == other.gpio && self.invert == other.invert && self.count == other.count
            && self.strip_type == other.strip_type && self.brightness == other.brightness
    }

    /// Creates an unused channel: no pin, no LEDs, no buffer, zero
    /// brightness, default layout.
    pub fn disabled() -> (r: Channel)
        ensures
            r.gpio == 0,
            !r.invert,
            r.count == 0,
            r.strip_type is Rgb,
            r.brightness == 0,
            r.pixels@.len() == 0,
            !r.is_active(),
    {
        Channel {
            gpio: 0,
            invert: false,
            count: 0,
            strip_type: StripType::Rgb,
            brightness: 0,
            pixels: Vec::new(),
        }
    }

    /// Creates a channel bound to a PWM pin; all other fields keep the
    /// disabled defaults until configured further.
    pub fn set_pwm(pin: PwmPin) -> (r: Channel)
        ensures
            r.gpio == pin.spec_gpio(),
            !r.invert,
            r.count == 0,
            r.strip_type is Rgb,
            r.brightness == 0,
            r.pixels@.len() == 0,
    {
        let mut ch = Channel::disabled();
        ch.gpio = pin.gpio();
        ch
    }

    /// Creates a channel bound to a PCM pin; all other fields keep the
    /// disabled defaults until configured further.
    pub fn set_pcm(pin: PcmPin) -> (r: Channel)
        ensures
            r.gpio == pin.spec_gpio(),
            !r.invert,
            r.count == 0,
            r.strip_type is Rgb,
            r.brightness == 0,
            r.pixels@.len() == 0,
    {
        let mut ch = Channel::disabled();
        ch.gpio = pin.gpio();
        ch
    }

    /// Creates a channel bound to an SPI pin; all other fields keep the
    /// disabled defaults until configured further.
    pub fn set_spi(pin: SpiPin) -> (r: Channel)
        ensures
            r.gpio == pin.spec_gpio(),
            !r.invert,
            r.count == 0,
            r.strip_type is Rgb,
            r.brightness == 0,
            r.pixels@.len() == 0,
    {
        let mut ch = Channel::disabled();
        ch.gpio = pin.gpio();
        ch
    }

    /// Sets the number of LEDs on the strip. An enabled channel must drive at
    /// least one LED.
    pub fn set_led_count(self, led_count: u16) -> (r: Channel)
        requires
            led_count > 0,
        ensures
            r.count == led_count,
            r.gpio == self.gpio,
            r.invert == self.invert,
            r.strip_type == self.strip_type,
            r.brightness == self.brightness,
            r.pixels@ == self.pixels@,
    {
        let mut ch = self;
        ch.count = led_count;
        ch
    }

    /// Sets the brightness scale.
    pub fn set_brightness(self, brightness: u8) -> (r: Channel)
        ensures
            r.brightness == brightness,
            r.gpio == self.gpio,
            r.invert == self.invert,
            r.count == self.count,
            r.strip_type == self.strip_type,
            r.pixels@ == self.pixels@,
    {
        let mut ch = self;
        ch.brightness = brightness;
        ch
    }

    /// Sets the signal polarity.
    pub fn set_invert(self, invert: bool) -> (r: Channel)
        ensures
            r.invert == invert,
            r.gpio == self.gpio,
            r.count == self.count,
            r.strip_type == self.strip_type,
            r.brightness == self.brightness,
            r.pixels@ == self.pixels@,
    {
        let mut ch = self;
        ch.invert = invert;
        ch
    }

    /// Returns the channel's brightness.
    pub fn get_brightness(&self) -> (r: u8)
        ensures
            r == self.brightness,
    {
        self.brightness
    }

    /// Changes the channel's brightness in place. Only the transmitted
    /// intensity changes: the pixel count, the layout and the buffer stay as
    /// they are.
    pub fn change_brightness(&mut self, brightness: u8)
        ensures
            final(self).brightness == brightness,
            final(self).gpio == old(self).gpio,
            final(self).invert == old(self).invert,
            final(self).count == old(self).count,
            final(self).strip_type == old(self).strip_type,
            final(self).pixels@ == old(self).pixels@,
    {
        self.brightness = brightness;
    }

    /// Sets the color layout.
    fn set_strip(self, strip_type: StripType) -> (r: Channel)
        ensures
            r.strip_type == strip_type,
            r.gpio == self.gpio,
            r.invert == self.invert,
            r.count == self.count,
            r.brightness == self.brightness,
            r.pixels@ == self.pixels@,
    {
        let mut ch = self;
        ch.strip_type = strip_type;
        ch
    }

    /// Selects the layout with red at bit 16, green at bit 8, blue at bit 0.
    pub fn set_strip_rgb(self) -> (r: Channel)
        ensures
            r.strip_type is Rgb,
            r.gpio == self.gpio,
            r.invert == self.invert,
            r.count == self.count,
            r.brightness == self.brightness,
            r.pixels@ == self.pixels@,
    {
        self.set_strip(StripType::Rgb)
    }

    /// Selects the layout with red at bit 16, green at bit 0, blue at bit 8.
    pub fn set_strip_rbg(self) -> (r: Channel)
        ensures
            r.strip_type is Rbg,
            r.gpio == self.gpio,
            r.invert == self.invert,
            r.count == self.count,
            r.brightness == self.brightness,
            r.pixels@ == self.pixels@,
    {
        self.set_strip(StripType::Rbg)
    }

    /// Selects the layout with red at bit 8, green at bit 16, blue at bit 0.
    pub fn set_strip_grb(self) -> (r: Channel)
        ensures
            r.strip_type is Grb,
            r.gpio == self.gpio,
            r.invert == self.invert,
            r.count == self.count,
            r.brightness == self.brightness,
            r.pixels@ == self.pixels@,
    {
        self.set_strip(StripType::Grb)
    }

    /// Selects the layout with red at bit 8, green at bit 0, blue at bit 16.
    pub fn set_strip_gbr(self) -> (r: Channel)
        ensures
            r.strip_type is Gbr,
            r.gpio == self.gpio,
            r.invert == self.invert,
            r.count == self.count,
            r.brightness == self.brightness,
            r.pixels@ == self.pixels@,
    {
        self.set_strip(StripType::Gbr)
    }

    /// Selects the layout with red at bit 0, green at bit 8, blue at bit 16.
    pub fn set_strip_bgr(self) -> (r: Channel)
        ensures
            r.strip_type is Bgr,
            r.gpio == self.gpio,
            r.invert == self.invert,
            r.count == self.count,
            r.brightness == self.brightness,
            r.pixels@ == self.pixels@,
    {
        self.set_strip(StripType::Bgr)
    }

    /// Selects the layout with red at bit 0, green at bit 16, blue at bit 8.
    pub fn set_strip_brg(self) -> (r: Channel)
        ensures
            r.strip_type is Brg,
            r.gpio == self.gpio,
            r.invert == self.invert,
            r.count == self.count,
            r.brightness == self.brightness,
            r.pixels@ == self.pixels@,
    {
        self.set_strip(StripType::Brg)
    }

    /// Read access to the pixel words of an active channel.
    pub fn leds(&self) -> (r: &Vec<u32>)
        requires
            self.is_active(),
        ensures
            r@ == self.pixels@,
    {
        &self.pixels
    }

    /// Write access to the pixel words of an active channel.
    pub fn leds_mut(&mut self) -> (r: &mut Vec<u32>)
        requires
            old(self).is_active(),
        ensures
            r@ == old(self).pixels@,
            final(self).pixels@ == final(r)@,
            final(self).gpio == old(self).gpio,
            final(self).invert == old(self).invert,
            final(self).count == old(self).count,
            final(self).strip_type == old(self).strip_type,
            final(self).brightness == old(self).brightness,
    {
        &mut self.pixels
    }

    /// Reads one pixel word. Returns the word only when the channel is active
    /// and the index is in range; on a disabled or not yet activated channel
    /// there is nothing to read.
    pub fn led(&self, index: usize) -> (r: Option<u32>)
        ensures
            r is Some <==> self.is_active() && index < self.count,
            r is Some ==> r->Some_0 == self.pixels@[index as int],
    {
        if self.count > 0 && self.pixels.len() == self.count as usize && index < self.pixels.len() {
            Some(self.pixels[index])
        } else {
            None
        }
    }

    /// Writes one pixel word. The write happens only when the channel is
    /// active and the index is in range; otherwise the channel is left
    /// untouched and the call reports failure.
    pub fn set_led(&mut self, index: usize, value: u32) -> (ok: bool)
        ensures
            ok <==> old(self).is_active() && index < old(self).count,
            ok ==> final(self).pixels@ == old(self).pixels@.update(index as int, value),
            !ok ==> final(self).pixels@ == old(self).pixels@,
            final(self).gpio == old(self).gpio,
            final(self).invert == old(self).invert,
            final(self).count == old(self).count,
            final(self).strip_type == old(self).strip_type,
            final(self).brightness == old(self).brightness,
    {
        if self.count > 0 && self.pixels.len() == self.count as usize && index < self.pixels.len() {
            self.pixels[index] = value;
            true
        } else {
            false
        }
    }
}

} // verus!
