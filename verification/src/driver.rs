//! The driver: a validated configuration of up to two channels together with
//! the render lifecycle. A driver starts unopened (hardware not yet claimed),
//! becomes active on the first hardware operation that succeeds, and is
//! stopped by an idempotent teardown after which no operation can touch the
//! buffers again.
//!
//! The privileged hardware calls themselves live outside this crate. Each
//! lifecycle method here takes the outcome the hardware layer reported and
//! decides the next state and the caller-visible result; `stop` and
//! `set_gamma_factor` instead return whether the corresponding hardware call
//! must be performed now. The state machine is total: it answers for every
//! outcome the hardware can report.

use vstd::prelude::*;

use crate::channel::Channel;
use crate::error::ErrorCode;
use crate::pins::{gpio_in_pwm_set, gpio_in_secondary_pwm_set, gpio_in_spi_set};
use crate::pins::{is_pwm_gpio, is_secondary_pwm_gpio, is_spi_gpio};

verus! {

/// Default signal frequency in Hz.
pub const WS2811_TARGET_FREQ: u32 = 800000;

/// Lifecycle stage of a driver.
#[derive(Clone, Copy, Debug, PartialEq, Eq, Structural)]
pub enum DriverState {
    /// The configuration is assembled; the hardware is not yet claimed.
    Unopened,
    /// The hardware is claimed; render and wait are usable.
    Active,
    /// Terminal: the hardware is released and the buffers are gone.
    Stopped,
}

/// Teardown step: the next state, and whether the hardware must be released
/// now. Release happens exactly on the step that leaves the active state, so
/// repeating the step can never release twice.
pub open spec fn spec_stop(state: DriverState) -> (DriverState, bool) {
    (DriverState::Stopped, state is Active)
}

/// Render step, over the lifecycle state, the pending-transfer flag, whether
/// the transfer is synchronous (SPI), and the outcome the hardware reported:
/// yields the next state, the next pending-transfer flag, and the result the
/// caller sees. A stopped driver refuses the call outright; a successful
/// render leaves a transfer in flight unless it was synchronous.
pub open spec fn spec_render(state: DriverState, pending: bool, spi: bool, outcome: ErrorCode) -> (
    DriverState,
    bool,
    Result<(), ErrorCode>,
) {
    if state is Stopped {
        (state, pending, Err(ErrorCode::Generic))
    } else if outcome is Success {
        (DriverState::Active, !spi, Ok(()))
    } else {
        (state, pending, Err(outcome))
    }
}

/// Wait step, over the lifecycle state, the pending-transfer flag, and the
/// completion outcome the hardware reported: yields the next state, the next
/// pending-transfer flag, and the result the caller sees. A wait reports
/// success only for a successful completion report, and then no transfer is
/// pending any more.
pub open spec fn spec_wait(state: DriverState, pending: bool, outcome: ErrorCode) -> (
    DriverState,
    bool,
    Result<(), ErrorCode>,
) {
    if state is Stopped {
        (state, pending, Err(ErrorCode::Generic))
    } else if outcome is Success {
        (DriverState::Active, false, Ok(()))
    } else {
        (state, pending, Err(outcome))
    }
}

/// Collects the global timing parameters and the two channel slots, and
/// validates the cross-channel pin constraints before producing a driver.
#[derive(Debug)]
pub struct DriverBuilder {
    /// Minimum microseconds to pause within a render call.
    pub render_wait_time: u64,
    /// Signal frequency in Hz.
    pub freq: u32,
    /// Index of the DMA engine to use.
    pub dma_channel: u8,
    /// First channel slot.
    pub ch1: Channel,
    /// Second channel slot.
    pub ch2: Channel,
}

impl DriverBuilder {
    /// The pin constraints across the two slots: the first channel must not
    /// sit on a secondary (PWM1) pin, and the second channel, when it uses
    /// PWM at all, must sit on a secondary pin. The secondary PWM output is
    /// only electrically available as the second channel.
    pub open spec fn spec_valid(self) -> bool {
        &&& !is_secondary_pwm_gpio(self.ch1.gpio)
        &&& (is_pwm_gpio(self.ch2.gpio) ==> is_secondary_pwm_gpio(self.ch2.gpio))
    }

    /// Creates the default configuration: 800 kHz signal, DMA engine 10, no
    /// render pause, both channels disabled.
    pub fn new() -> (r: DriverBuilder)
        ensures
            r.render_wait_time == 0,
            r.freq == WS2811_TARGET_FREQ,
            r.dma_channel == 10,
            r.ch1.gpio == 0 && !r.ch1.invert && r.ch1.count == 0 && r.ch1.strip_type is Rgb
                && r.ch1.brightness == 0 && r.ch1.pixels@.len() == 0,
            r.ch2.gpio == 0 && !r.ch2.invert && r.ch2.count == 0 && r.ch2.strip_type is Rgb
                && r.ch2.brightness == 0 && r.ch2.pixels@.len() == 0,
            r.spec_valid(),
    {
        DriverBuilder {
            render_wait_time: 0,
            freq: WS2811_TARGET_FREQ,
            dma_channel: 10,
            ch1: Channel::disabled(),
            ch2: Channel::disabled(),
        }
    }

    /// Sets the minimum pause within a render call, in microseconds.
    pub fn render_wait_time(self, render_wait_time: u64) -> (r: DriverBuilder)
        ensures
            r.render_wait_time == render_wait_time,
            r.freq == self.freq,
            r.dma_channel == self.dma_channel,
            r.ch1 == self.ch1,
            r.ch2 == self.ch2,
    {
        let mut b = self;
        b.render_wait_time = render_wait_time;
        b
    }

    /// Sets the signal frequency in Hz.
    pub fn freq(self, freq: u32) -> (r: DriverBuilder)
        requires
            freq > 0,
        ensures
            r.freq == freq,
            r.render_wait_time == self.render_wait_time,
            r.dma_channel == self.dma_channel,
            r.ch1 == self.ch1,
            r.ch2 == self.ch2,
    {
        let mut b = self;
        b.freq = freq;
        b
    }

    /// Sets the index of the DMA engine to use.
    pub fn dma(self, dma_num: u8) -> (r: DriverBuilder)
        ensures
            r.dma_channel == dma_num,
            r.render_wait_time == self.render_wait_time,
            r.freq == self.freq,
            r.ch1 == self.ch1,
            r.ch2 == self.ch2,
    {
        let mut b = self;
        b.dma_channel = dma_num;
        b
    }

    /// Fills the first channel slot. Whether the channel's pin is allowed in
    /// this slot is checked by `build`.
    pub fn channel1(self, channel: Channel) -> (r: DriverBuilder)
        ensures
            r.ch1 == channel,
            r.ch2 == self.ch2,
            r.render_wait_time == self.render_wait_time,
            r.freq == self.freq,
            r.dma_channel == self.dma_channel,
    {
        let mut b = self;
        b.ch1 = channel;
        b
    }

    /// Fills the second channel slot. Whether the channel's pin is allowed in
    /// this slot is checked by `build`.
    pub fn channel2(self, channel: Channel) -> (r: DriverBuilder)
        ensures
            r.ch2 == channel,
            r.ch1 == self.ch1,
            r.render_wait_time == self.render_wait_time,
            r.freq == self.freq,
            r.dma_channel == self.dma_channel,
    {
        let mut b = self;
        b.ch2 = channel;
        b
    }

    /// Validates the configuration and assembles the driver. Succeeds exactly
    /// when the pin constraints across the two slots hold; the driver starts
    /// unopened, with a zeroed pixel buffer of one word per LED on each
    /// channel and no transfer pending. A configuration that breaks the pin
    /// constraints is rejected without touching any hardware.
    pub fn build(self) -> (r: Result<Driver, ErrorCode>)
        ensures
            r is Ok <==> self.spec_valid(),
            !self.spec_valid() ==> r == Err::<Driver, ErrorCode>(ErrorCode::IllegalGpio),
            r is Ok ==> {
                &&& r->Ok_0.freq == self.freq
                &&& r->Ok_0.dma_channel == self.dma_channel
                &&& r->Ok_0.render_wait_time == self.render_wait_time
                &&& r->Ok_0.state is Unopened
                &&& !r->Ok_0.pending_transfer
                &&& !r->Ok_0.custom_gamma
                &&& r->Ok_0.ch1.same_config(self.ch1)
                &&& r->Ok_0.ch2.same_config(self.ch2)
                &&& r->Ok_0.ch1.pixels@.len() == self.ch1.count as nat
                &&& r->Ok_0.ch2.pixels@.len() == self.ch2.count as nat
                &&& (forall|i: int|
                    0 <= i < r->Ok_0.ch1.pixels@.len() ==> r->Ok_0.ch1.pixels@[i] == 0)
                &&& (forall|i: int|
                    0 <= i < r->Ok_0.ch2.pixels@.len() ==> r->Ok_0.ch2.pixels@[i] == 0)
                &&& r->Ok_0.wf()
            },
    {
        let slot1_ok = !gpio_in_secondary_pwm_set(self.ch1.gpio);
        let slot2_ok = !gpio_in_pwm_set(self.ch2.gpio) || gpio_in_secondary_pwm_set(
            self.ch2.gpio,
        );
        if slot1_ok && slot2_ok {
            let mut ch1 = self.ch1;
            let mut ch2 = self.ch2;
            ch1.pixels = zeroed(ch1.count as usize);
            ch2.pixels = zeroed(ch2.count as usize);
            Ok(
                Driver {
                    freq: self.freq,
                    dma_channel: self.dma_channel,
                    render_wait_time: self.render_wait_time,
                    ch1,
                    ch2,
                    state: DriverState::Unopened,
                    pending_transfer: false,
                    custom_gamma: false,
                },
            )
        } else {
            Err(ErrorCode::IllegalGpio)
        }
    }
}

/// Allocates a zeroed pixel buffer of the given length.
fn zeroed(n: usize) -> (v: Vec<u32>)
    ensures
        v@.len() == n,
        forall|i: int| 0 <= i < n ==> v@[i] == 0,
{
    let mut v: Vec<u32> = Vec::new();
    let mut i: usize = 0;
    while i < n
        invariant
            i <= n,
            v@.len() == i,
            forall|k: int| 0 <= k < i ==> v@[k] == 0,
        decreases n - i,
    {
        v.push(0);
        i = i + 1;
    }
    v
}

/// A validated two-channel configuration together with its lifecycle state.
#[derive(Debug)]
pub struct Driver {
    /// Signal frequency in Hz.
    pub freq: u32,
    /// Index of the DMA engine in use.
    pub dma_channel: u8,
    /// Minimum microseconds to pause within a render call.
    pub render_wait_time: u64,
    /// First channel.
    pub ch1: Channel,
    /// Second channel.
    pub ch2: Channel,
    /// Lifecycle stage.
    pub state: DriverState,
    /// A render's transfer is still in flight and the buffers must not be
    /// handed to the hardware again before a wait.
    pub pending_transfer: bool,
    /// A custom gamma curve has been requested.
    pub custom_gamma: bool,
}

impl Driver {
    /// While the driver is not stopped, each channel's buffer holds one word
    /// per LED; once stopped, the buffers are gone.
    pub open spec fn wf(self) -> bool {
        if self.state is Stopped {
            self.ch1.pixels@.len() == 0 && self.ch2.pixels@.len() == 0
        } else {
            self.ch1.pixels@.len() == self.ch1.count as nat && self.ch2.pixels@.len()
                == self.ch2.count as nat
        }
    }

    /// The transfer runs over SPI and completes within the render call
    /// itself, so no wait is needed after a render.
    pub open spec fn spec_is_spi(self) -> bool {
        is_spi_gpio(self.ch1.gpio)
    }

    /// Returns whether the driver transfers over SPI (synchronously).
    pub fn is_spi(&self) -> (r: bool)
        ensures
            r == self.spec_is_spi(),
    {
        gpio_in_spi_set(self.ch1.gpio)
    }

    /// Starts building a driver from the default configuration.
    pub fn builder() -> (r: DriverBuilder)
        ensures
            r.render_wait_time == 0,
            r.freq == WS2811_TARGET_FREQ,
            r.dma_channel == 10,
            r.ch1.gpio == 0 && !r.ch1.invert && r.ch1.count == 0 && r.ch1.strip_type is Rgb
                && r.ch1.brightness == 0 && r.ch1.pixels@.len() == 0,
            r.ch2.gpio == 0 && !r.ch2.invert && r.ch2.count == 0 && r.ch2.strip_type is Rgb
                && r.ch2.brightness == 0 && r.ch2.pixels@.len() == 0,
            r.spec_valid(),
    {
        DriverBuilder::new()
    }

    /// Read access to the first channel.
    pub fn channel1(&self) -> (r: &Channel)
        ensures
            *r == self.ch1,
    {
        &self.ch1
    }

    /// Write access to the first channel.
    pub fn channel1_mut(&mut self) -> (r: &mut Channel)
        ensures
            *r == old(self).ch1,
            final(self).ch1 == *final(r),
            final(self).ch2 == old(self).ch2,
            final(self).freq == old(self).freq,
            final(self).dma_channel == old(self).dma_channel,
            final(self).render_wait_time == old(self).render_wait_time,
            final(self).state == old(self).state,
            final(self).pending_transfer == old(self).pending_transfer,
            final(self).custom_gamma == old(self).custom_gamma,
    {
        &mut self.ch1
    }

    /// Read access to the second channel. Only a driver whose second slot was
    /// filled (secondary PWM) has LEDs here.
    pub fn channel2(&self) -> (r: &Channel)
        ensures
            *r == self.ch2,
    {
        &self.ch2
    }

    /// Write access to the second channel.
    pub fn channel2_mut(&mut self) -> (r: &mut Channel)
        ensures
            *r == old(self).ch2,
            final(self).ch2 == *final(r),
            final(self).ch1 == old(self).ch1,
            final(self).freq == old(self).freq,
            final(self).dma_channel == old(self).dma_channel,
            final(self).render_wait_time == old(self).render_wait_time,
            final(self).state == old(self).state,
            final(self).pending_transfer == old(self).pending_transfer,
            final(self).custom_gamma == old(self).custom_gamma,
    {
        &mut self.ch2
    }

    /// Takes the outcome of one hardware render call and advances the
    /// lifecycle. On a stopped driver the call is refused before any hardware
    /// is touched. A successful outcome makes the driver active and leaves
    /// the transfer in flight (unless it was synchronous over SPI); any
    /// failure is handed back unchanged. The configuration and the pixel
    /// buffers are never modified.
    pub fn render(&mut self, outcome: ErrorCode) -> (r: Result<(), ErrorCode>)
        ensures
            (final(self).state, final(self).pending_transfer, r) == spec_render(
                old(self).state,
                old(self).pending_transfer,
                old(self).spec_is_spi(),
                outcome,
            ),
            final(self).freq == old(self).freq,
            final(self).dma_channel == old(self).dma_channel,
            final(self).render_wait_time == old(self).render_wait_time,
            final(self).ch1 == old(self).ch1,
            final(self).ch2 == old(self).ch2,
            final(self).custom_gamma == old(self).custom_gamma,
            old(self).wf() ==> final(self).wf(),
    {
        match self.state {
            DriverState::Stopped => Err(ErrorCode::Generic),
            _ => {
                match outcome {
                    ErrorCode::Success => {
                        self.state = DriverState::Active;
                        self.pending_transfer = !self.is_spi();
                        Ok(())
                    },
                    e => Err(e),
                }
            },
        }
    }

    /// Takes the completion outcome of one hardware wait call and advances
    /// the lifecycle. On a stopped driver the call is refused before any
    /// hardware is touched. Success is reported exactly for a successful
    /// completion report, and then no transfer is pending any more. The
    /// configuration and the pixel buffers are never modified.
    pub fn wait(&mut self, outcome: ErrorCode) -> (r: Result<(), ErrorCode>)
        ensures
            (final(self).state, final(self).pending_transfer, r) == spec_wait(
                old(self).state,
                old(self).pending_transfer,
                outcome,
            ),
            final(self).freq == old(self).freq,
            final(self).dma_channel == old(self).dma_channel,
            final(self).render_wait_time == old(self).render_wait_time,
            final(self).ch1 == old(self).ch1,
            final(self).ch2 == old(self).ch2,
            final(self).custom_gamma == old(self).custom_gamma,
            old(self).wf() ==> final(self).wf(),
    {
        match self.state {
            DriverState::Stopped => Err(ErrorCode::Generic),
            _ => {
                match outcome {
                    ErrorCode::Success => {
                        self.state = DriverState::Active;
                        self.pending_transfer = false;
                        Ok(())
                    },
                    e => Err(e),
                }
            },
        }
    }

    /// Records a request for a custom gamma curve and decides whether the
    /// hardware call that rebuilds the curve may be performed now: it may on
    /// every driver that is not stopped. Only the transmitted intensity is
    /// affected — the pixel counts, the layouts and the buffers stay as they
    /// are.
    pub fn set_gamma_factor(&mut self) -> (apply: bool)
        ensures
            apply <==> !(old(self).state is Stopped),
            final(self).custom_gamma == (old(self).custom_gamma || apply),
            final(self).state == old(self).state,
            final(self).pending_transfer == old(self).pending_transfer,
            final(self).freq == old(self).freq,
            final(self).dma_channel == old(self).dma_channel,
            final(self).render_wait_time == old(self).render_wait_time,
            final(self).ch1 == old(self).ch1,
            final(self).ch2 == old(self).ch2,
            old(self).wf() ==> final(self).wf(),
    {
        match self.state {
            DriverState::Stopped => false,
            _ => {
                self.custom_gamma = true;
                true
            },
        }
    }

    /// Tears the driver down and decides whether the hardware must be
    /// released now: exactly when this is the stop that leaves the active
    /// state. The pixel buffers are dropped; the configuration stays
    /// readable. Stopping never fails, and repeating it is harmless: once
    /// stopped, no later stop asks for a release again.
    pub fn stop(&mut self) -> (release: bool)
        ensures
            (final(self).state, release) == spec_stop(old(self).state),
            final(self).state is Stopped,
            release <==> old(self).state is Active,
            !final(self).pending_transfer,
            final(self).custom_gamma == old(self).custom_gamma,
            final(self).freq == old(self).freq,
            final(self).dma_channel == old(self).dma_channel,
            final(self).render_wait_time == old(self).render_wait_time,
            final(self).ch1.same_config(old(self).ch1),
            final(self).ch2.same_config(old(self).ch2),
            final(self).ch1.pixels@.len() == 0,
            final(self).ch2.pixels@.len() == 0,
            final(self).wf(),
    {
        let release = match self.state {
            DriverState::Active => true,
            _ => false,
        };
        self.state = DriverState::Stopped;
        self.pending_transfer = false;
        self.ch1.pixels = Vec::new();
        self.ch2.pixels = Vec::new();
        release
    }
}

/// Law: a configuration whose second channel sits on a PWM pin that is not a
/// secondary (PWM1) pin never validates — whatever the first channel is bound
/// to — so `build` rejects it before any hardware could be claimed.
pub proof fn lemma_pwm_pairing_rejected(b: DriverBuilder)
    requires
        is_pwm_gpio(b.ch2.gpio),
        !is_secondary_pwm_gpio(b.ch2.gpio),
    ensures
        !b.spec_valid(),
{
}

/// Law: teardown is idempotent. One stop moves any driver to the stopped
/// state; from the stopped state every further stop stays there and never
/// asks for a hardware release again.
pub proof fn lemma_stop_idempotent(state: DriverState)
    ensures
        spec_stop(state).0 is Stopped,
        spec_stop(spec_stop(state).0).0 == spec_stop(state).0,
        spec_stop(spec_stop(state).0).1 == false,
{
}

/// Law: on a driver that is not stopped, a render whose transfer was accepted
/// reports success, and the wait that follows reports success exactly when
/// the hardware signalled that the transfer completed — and then no transfer
/// is pending any more. The wait can never report success while the last
/// render's data is still in flight.
pub proof fn lemma_render_then_wait(
    state: DriverState,
    pending: bool,
    spi: bool,
    completion: ErrorCode,
)
    requires
        !(state is Stopped),
    ensures
        spec_render(state, pending, spi, ErrorCode::Success).2 is Ok,
        spec_wait(
            spec_render(state, pending, spi, ErrorCode::Success).0,
            spec_render(state, pending, spi, ErrorCode::Success).1,
            completion,
        ).2 is Ok <==> completion is Success,
        spec_wait(
            spec_render(state, pending, spi, ErrorCode::Success).0,
            spec_render(state, pending, spi, ErrorCode::Success).1,
            completion,
        ).2 is Ok ==> !spec_wait(
            spec_render(state, pending, spi, ErrorCode::Success).0,
            spec_render(state, pending, spi, ErrorCode::Success).1,
            completion,
        ).1,
{
}

/// Law: once a driver is stopped, render and wait refuse every call — they
/// report an error and leave the driver exactly as it was, whatever outcome
/// is fed in.
pub proof fn lemma_stopped_refuses_operations(pending: bool, spi: bool, outcome: ErrorCode)
    ensures
        spec_render(DriverState::Stopped, pending, spi, outcome).2 is Err,
        spec_render(DriverState::Stopped, pending, spi, outcome).0 is Stopped,
        spec_render(DriverState::Stopped, pending, spi, outcome).1 == pending,
        spec_wait(DriverState::Stopped, pending, outcome).2 is Err,
        spec_wait(DriverState::Stopped, pending, outcome).0 is Stopped,
        spec_wait(DriverState::Stopped, pending, outcome).1 == pending,
{
}

} // verus!
