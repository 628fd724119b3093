//! Core model of a transient "toast" alert overlay.
//!
//! Host code enqueues short-lived text messages; each message waits in a
//! backlog until display capacity is free, is then admitted, slides in along
//! an eased fade transition, stays visible for a configurable lifetime, and
//! slides back out before it is removed. A dismiss button lets the user cut
//! the lifetime short, and at most a configured number of alerts are visible
//! at once.
//!
//! The crate keeps the whole lifecycle as explicit data: [`alert`] holds the
//! per-alert components (message, timers, transition direction, slide
//! offset), and [`lifecycle`] holds [`lifecycle::AlertWorld`], the state of
//! the overlay as a whole, with one step function per per-frame system and a
//! contract pinning down exactly what each step does. A UI layer owns the
//! clock, the widgets and the eased interpolation curve; it reports elapsed
//! time and button presses into the model and renders what the model says.

pub mod alert;
pub mod laws;
pub mod lifecycle;
