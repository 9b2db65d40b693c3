//! Control core of a closed-loop thermal controller: exponential smoothing of
//! analog samples, a linear temperature estimate, piecewise-linear fan curves,
//! and timer prescaler/period selection for phase-correct PWM.

pub mod clock;
pub mod control;
pub mod curve;
pub mod fix;
pub mod pwm;
