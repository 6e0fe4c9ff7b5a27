//! Verified core of a Dreamcast emulator: the SH-4 peripherals and CPU core,
//! the Holly system chip (PowerVR tile accelerator words, framebuffer,
//! texture conversion, sync pulse generator, AICA sound block and its ARM7
//! core, boot ROM and disc images), the event scheduler and the small data
//! structures around them.
use vstd::prelude::*;

pub mod boot_memory;
pub mod context;
pub mod emulator;
pub mod fifo;
pub mod hw;
pub mod run_loop;
pub mod json_tests;
pub mod scheduler;

verus! {

/// A request from the frontend to the emulator thread.
#[derive(Copy, Clone, Debug, PartialEq, Eq, Structural)]
pub enum EmulatorFrontendRequest {
    ButtonPressed(ControllerButton),
    ButtonReleased(ControllerButton),
    Pause,
    Resume,
    SampleState,
    ToggleWireframe,
    RenderingDone,
}

/// A button of the controller.
#[derive(Copy, Clone, Debug, PartialEq, Eq, Structural)]
pub enum ControllerButton {
    A,
    B,
    X,
    Y,
    Start,
    Left,
    Right,
    Up,
    Down,
}

/// The pixel formats of the framebuffer.
#[derive(Copy, Clone, Debug, Eq, PartialEq, Structural)]
pub enum FramebufferFormat {
    Rgb555,
    Rgb565,
    /// Packed 24-bit.
    Rgb888,
    ARgb888,
}

/// The two passes of the hardware renderer: opaque geometry first, then
/// translucent geometry over it.
#[derive(Copy, Clone, Debug, PartialEq, Eq, Structural)]
pub enum HwRasterizerPassKind {
    Opaque,
    Transparent,
}

} // verus!
