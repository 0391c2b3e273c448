//! The logic of a handheld power meter: a widget toolkit that records what is
//! to be drawn, the render loop that turns input events into such drawings,
//! and the step functions of the button, sensor and fuel-gauge tasks.
//!
//! Nothing here touches hardware. Drawing is recorded in a [`display::DrawList`],
//! and every task is a function from its state and the last thing that happened
//! to its next state and the next thing to do.

pub mod buttons;
pub mod display;
pub mod geometry;
pub mod graphics;
pub mod input;
pub mod list;
pub mod max1704x;
pub mod power;
pub mod render;
pub mod style;
pub mod text;
pub mod widgets;
