//! Closed sets of GPIO pins on which the supported peripherals can drive a
//! strip. A channel may only be bound to a pin of the set that matches its
//! peripheral mode; any other GPIO number is rejected at construction time.

use vstd::prelude::*;

verus! {

/// A GPIO number belongs to the PWM pin set.
pub open spec fn is_pwm_gpio(gpio: u32) -> bool {
    gpio == 12 || gpio == 18 || gpio == 13 || gpio == 19
}

/// A GPIO number belongs to the secondary (PWM1) half of the PWM pin set.
/// Only the second channel slot of a driver may use these pins.
pub open spec fn is_secondary_pwm_gpio(gpio: u32) -> bool {
    gpio == 13 || gpio == 19
}

/// A GPIO number belongs to the PCM pin set.
pub open spec fn is_pcm_gpio(gpio: u32) -> bool {
    gpio == 21 || gpio == 31
}

/// A GPIO number belongs to the SPI pin set.
pub open spec fn is_spi_gpio(gpio: u32) -> bool {
    gpio == 10
}

/// Decides whether a GPIO number belongs to the PWM pin set.
pub fn gpio_in_pwm_set(gpio: u32) -> (r: bool)
    ensures
        r == is_pwm_gpio(gpio),
{
    gpio == 12 || gpio == 18 || gpio == 13 || gpio == 19
}

/// Decides whether a GPIO number belongs to the secondary (PWM1) half of the
/// PWM pin set.
pub fn gpio_in_secondary_pwm_set(gpio: u32) -> (r: bool)
    ensures
        r == is_secondary_pwm_gpio(gpio),
{
    gpio == 13 || gpio == 19
}

/// Decides whether a GPIO number belongs to the PCM pin set.
pub fn gpio_in_pcm_set(gpio: u32) -> (r: bool)
    ensures
        r == is_pcm_gpio(gpio),
{
    gpio == 21 || gpio == 31
}

/// Decides whether a GPIO number belongs to the SPI pin set.
pub fn gpio_in_spi_set(gpio: u32) -> (r: bool)
    ensures
        r == is_spi_gpio(gpio),
{
    gpio == 10
}

/// Pins with a PWM output function.
#[derive(Clone, Copy, Debug, PartialEq, Eq, Structural)]
pub enum PwmPin {
    /// PWM0 on GPIO 12.
    Pwm0_1,
    /// PWM0 on GPIO 18.
    Pwm0_2,
    /// PWM1 on GPIO 13.
    Pwm1_1,
    /// PWM1 on GPIO 19.
    Pwm1_2,
}

/// Pins with an SPI output function.
#[derive(Clone, Copy, Debug, PartialEq, Eq, Structural)]
pub enum SpiPin {
    /// SPI0 on GPIO 10.
    Spi0,
}

/// Pins with a PCM output function.
#[derive(Clone, Copy, Debug, PartialEq, Eq, Structural)]
pub enum PcmPin {
    /// PCM_DOUT on GPIO 21, present on the standard header.
    Board,
    /// PCM_DOUT on GPIO 31, on the P5 header of some board variants.
    P5,
}

impl PwmPin {
    /// The GPIO number of the pin.
    pub open spec fn spec_gpio(self) -> u32 {
        match self {
            PwmPin::Pwm0_1 => 12,
            PwmPin::Pwm0_2 => 18,
            PwmPin::Pwm1_1 => 13,
            PwmPin::Pwm1_2 => 19,
        }
    }

    /// Returns the GPIO number of the pin.
    pub fn gpio(&self) -> (g: u32)
        ensures
            g == self.spec_gpio(),
    {
        match self {
            PwmPin::Pwm0_1 => 12,
            PwmPin::Pwm0_2 => 18,
            PwmPin::Pwm1_1 => 13,
            PwmPin::Pwm1_2 => 19,
        }
    }

    /// The pin drives the secondary PWM output (PWM1).
    pub open spec fn spec_is_secondary(self) -> bool {
        self is Pwm1_1 || self is Pwm1_2
    }

    /// Returns whether the pin drives the secondary PWM output (PWM1).
    pub fn is_secondary(&self) -> (r: bool)
        ensures
            r == self.spec_is_secondary(),
    {
        match self {
            PwmPin::Pwm1_1 => true,
            PwmPin::Pwm1_2 => true,
            _ => false,
        }
    }

    /// The PWM pin with the given GPIO number, if there is one.
    pub open spec fn spec_from_gpio(gpio: u32) -> Option<PwmPin> {
        if gpio == 12 {
            Some(PwmPin::Pwm0_1)
        } else if gpio == 18 {
            Some(PwmPin::Pwm0_2)
        } else if gpio == 13 {
            Some(PwmPin::Pwm1_1)
        } else if gpio == 19 {
            Some(PwmPin::Pwm1_2)
        } else {
            None
        }
    }

    /// Looks up the PWM pin with the given GPIO number; every number outside
    /// the PWM pin set is rejected.
    pub fn from_gpio(gpio: u32) -> (r: Option<PwmPin>)
        ensures
            r == Self::spec_from_gpio(gpio),
            r is Some <==> is_pwm_gpio(gpio),
            r is Some ==> r->Some_0.spec_gpio() == gpio,
    {
        if gpio == 12 {
            Some(PwmPin::Pwm0_1)
        } else if gpio == 18 {
            Some(PwmPin::Pwm0_2)
        } else if gpio == 13 {
            Some(PwmPin::Pwm1_1)
        } else if gpio == 19 {
            Some(PwmPin::Pwm1_2)
        } else {
            None
        }
    }
}

impl SpiPin {
    /// The GPIO number of the pin.
    pub open spec fn spec_gpio(self) -> u32 {
        match self {
            SpiPin::Spi0 => 10,
        }
    }

    /// Returns the GPIO number of the pin.
    pub fn gpio(&self) -> (g: u32)
        ensures
            g == self.spec_gpio(),
    {
        match self {
            SpiPin::Spi0 => 10,
        }
    }

    /// The SPI pin with the given GPIO number, if there is one.
    pub open spec fn spec_from_gpio(gpio: u32) -> Option<SpiPin> {
        if gpio == 10 {
            Some(SpiPin::Spi0)
        } else {
            None
        }
    }

    /// Looks up the SPI pin with the given GPIO number; every number outside
    /// the SPI pin set is rejected.
    pub fn from_gpio(gpio: u32) -> (r: Option<SpiPin>)
        ensures
            r == Self::spec_from_gpio(gpio),
            r is Some <==> is_spi_gpio(gpio),
            r is Some ==> r->Some_0.spec_gpio() == gpio,
    {
        if gpio == 10 {
            Some(SpiPin::Spi0)
        } else {
            None
        }
    }
}

impl PcmPin {
    /// The GPIO number of the pin.
    pub open spec fn spec_gpio(self) -> u32 {
        match self {
            PcmPin::Board => 21,
            PcmPin::P5 => 31,
        }
    }

    /// Returns the GPIO number of the pin.
    pub fn gpio(&self) -> (g: u32)
        ensures
            g == self.spec_gpio(),
    {
        match self {
            PcmPin::Board => 21,
            PcmPin::P5 => 31,
        }
    }

    /// The PCM pin with the given GPIO number, if there is one.
    pub open spec fn spec_from_gpio(gpio: u32) -> Option<PcmPin> {
        if gpio == 21 {
            Some(PcmPin::Board)
        } else if gpio == 31 {
            Some(PcmPin::P5)
        } else {
            None
        }
    }

    /// Looks up the PCM pin with the given GPIO number; every number outside
    /// the PCM pin set is rejected.
    pub fn from_gpio(gpio: u32) -> (r: Option<PcmPin>)
        ensures
            r == Self::spec_from_gpio(gpio),
            r is Some <==> is_pcm_gpio(gpio),
            r is Some ==> r->Some_0.spec_gpio() == gpio,
    {
        if gpio == 21 {
            Some(PcmPin::Board)
        } else if gpio == 31 {
            Some(PcmPin::P5)
        } else {
            None
        }
    }
}

/// Law: a GPIO number outside all three peripheral pin sets is rejected by
/// every pin lookup, so no channel can ever be bound to it.
pub proof fn lemma_unassigned_gpio_rejected(gpio: u32)
    requires
        !is_pwm_gpio(gpio),
        !is_pcm_gpio(gpio),
        !is_spi_gpio(gpio),
    ensures
        PwmPin::spec_from_gpio(gpio) is None,
        PcmPin::spec_from_gpio(gpio) is None,
        SpiPin::spec_from_gpio(gpio) is None,
{
}

/// Law: the PWM, PCM and SPI pin sets are pairwise disjoint, so a pin value
/// names exactly one peripheral mode.
pub proof fn lemma_pin_sets_disjoint(gpio: u32)
    ensures
        !(is_pwm_gpio(gpio) && is_pcm_gpio(gpio)),
        !(is_pwm_gpio(gpio) && is_spi_gpio(gpio)),
        !(is_pcm_gpio(gpio) && is_spi_gpio(gpio)),
{
}

} // verus!
