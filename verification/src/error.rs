//! Closed taxonomy of hardware result codes. The numeric values mirror the
//! codes the hardware layer reports (zero for success, small negative numbers
//! for each failure), so outcomes can be carried across the boundary as plain
//! integers and mapped back without loss.

use vstd::prelude::*;

verus! {

/// Result code of a hardware operation.
#[derive(Clone, Copy, Debug, PartialEq, Eq, Structural)]
pub enum ErrorCode {
    /// The operation completed (numeric code 0).
    Success,
    /// Unspecific failure (numeric code -1).
    Generic,
    /// A buffer or table allocation failed (numeric code -2).
    OutOfMemory,
    /// The host board is not supported (numeric code -3).
    HwNotSupported,
    /// Locking DMA memory failed (numeric code -4).
    MemLock,
    /// Mapping DMA memory failed (numeric code -5).
    Mmap,
    /// Mapping the peripheral registers failed (numeric code -6).
    MapRegisters,
    /// Claiming the GPIO pins failed (numeric code -7).
    GpioInit,
    /// Configuring the PWM peripheral failed (numeric code -8).
    PwmSetup,
    /// Opening the mailbox device failed (numeric code -9).
    MailboxDevice,
    /// The DMA transfer failed (numeric code -10).
    Dma,
    /// A channel names a pin outside the valid sets (numeric code -11).
    IllegalGpio,
    /// Configuring the PCM peripheral failed (numeric code -12).
    PcmSetup,
    /// Configuring the SPI peripheral failed (numeric code -13).
    SpiSetup,
    /// The SPI transfer failed (numeric code -14).
    SpiTransfer,
}

impl ErrorCode {
    /// The numeric value of the code.
    pub open spec fn spec_code(self) -> i32 {
        match self {
            ErrorCode::Success => 0,
            ErrorCode::Generic => -1i32,
            ErrorCode::OutOfMemory => -2i32,
            ErrorCode::HwNotSupported => -3i32,
            ErrorCode::MemLock => -4i32,
            ErrorCode::Mmap => -5i32,
            ErrorCode::MapRegisters => -6i32,
            ErrorCode::GpioInit => -7i32,
            ErrorCode::PwmSetup => -8i32,
            ErrorCode::MailboxDevice => -9i32,
            ErrorCode::Dma => -10i32,
            ErrorCode::IllegalGpio => -11i32,
            ErrorCode::PcmSetup => -12i32,
            ErrorCode::SpiSetup => -13i32,
            ErrorCode::SpiTransfer => -14i32,
        }
    }

    /// Returns the numeric value of the code.
    pub fn code(&self) -> (c: i32)
        ensures
            c == self.spec_code(),
    {
        match self {
            ErrorCode::Success => 0,
            ErrorCode::Generic => -1i32,
            ErrorCode::OutOfMemory => -2i32,
            ErrorCode::HwNotSupported => -3i32,
            ErrorCode::MemLock => -4i32,
            ErrorCode::Mmap => -5i32,
            ErrorCode::MapRegisters => -6i32,
            ErrorCode::GpioInit => -7i32,
            ErrorCode::PwmSetup => -8i32,
            ErrorCode::MailboxDevice => -9i32,
            ErrorCode::Dma => -10i32,
            ErrorCode::IllegalGpio => -11i32,
            ErrorCode::PcmSetup => -12i32,
            ErrorCode::SpiSetup => -13i32,
            ErrorCode::SpiTransfer => -14i32,
        }
    }

    /// The code with the given numeric value; an unknown value stands for an
    /// unspecific failure.
    pub open spec fn spec_from_code(c: i32) -> ErrorCode {
        if c == 0 {
            ErrorCode::Success
        } else if c == -2i32 {
            ErrorCode::OutOfMemory
        } else if c == -3i32 {
            ErrorCode::HwNotSupported
        } else if c == -4i32 {
            ErrorCode::MemLock
        } else if c == -5i32 {
            ErrorCode::Mmap
        } else if c == -6i32 {
            ErrorCode::MapRegisters
        } else if c == -7i32 {
            ErrorCode::GpioInit
        } else if c == -8i32 {
            ErrorCode::PwmSetup
        } else if c == -9i32 {
            ErrorCode::MailboxDevice
        } else if c == -10i32 {
            ErrorCode::Dma
        } else if c == -11i32 {
            ErrorCode::IllegalGpio
        } else if c == -12i32 {
            ErrorCode::PcmSetup
        } else if c == -13i32 {
            ErrorCode::SpiSetup
        } else if c == -14i32 {
            ErrorCode::SpiTransfer
        } else {
            ErrorCode::Generic
        }
    }

    /// Maps a numeric result value back onto the taxonomy; every value that
    /// names no specific code stands for an unspecific failure.
    pub fn from_code(c: i32) -> (r: ErrorCode)
        ensures
            r == Self::spec_from_code(c),
    {
        if c == 0 {
            ErrorCode::Success
        } else if c == -2i32 {
            ErrorCode::OutOfMemory
        } else if c == -3i32 {
            ErrorCode::HwNotSupported
        } else if c == -4i32 {
            ErrorCode::MemLock
        } else if c == -5i32 {
            ErrorCode::Mmap
        } else if c == -6i32 {
            ErrorCode::MapRegisters
        } else if c == -7i32 {
            ErrorCode::GpioInit
        } else if c == -8i32 {
            ErrorCode::PwmSetup
        } else if c == -9i32 {
            ErrorCode::MailboxDevice
        } else if c == -10i32 {
            ErrorCode::Dma
        } else if c == -11i32 {
            ErrorCode::IllegalGpio
        } else if c == -12i32 {
            ErrorCode::PcmSetup
        } else if c == -13i32 {
            ErrorCode::SpiSetup
        } else if c == -14i32 {
            ErrorCode::SpiTransfer
        } else {
            ErrorCode::Generic
        }
    }
}

/// Law: mapping a code to its numeric value and back yields the same code,
/// so no outcome is lost on the way through the hardware boundary.
pub proof fn lemma_code_round_trip(e: ErrorCode)
    ensures
        ErrorCode::spec_from_code(e.spec_code()) == e,
{
}

} // verus!
