//! A scaffold for real-time rendered stages.
//!
//! A [`stage::Stage`] is a self-contained scene. A [`stage::StageContainer`]
//! owns one stage and walks it through the frame protocol (acquire, prepare,
//! submit, release). A [`lab::Lab`] is the driver around the container: it
//! turns polled window events into a continue-or-break signal, advances the
//! stage while it is running, and keeps the clock of released frames.
//!
//! The library never touches a window or a graphics device. Each step takes
//! what the host observed as a plain value and answers with the next thing
//! the host has to do.
pub mod clock;
pub mod event;
pub mod frame;
pub mod lab;
pub mod point;
pub mod stage;
