//! Hardware-agnostic driver for a bipolar stepper motor.
//!
//! The driver generates four phase-offset PWM signals across two coil pairs to
//! produce rotary motion in a chosen direction, then de-energizes the coils by
//! removing the phase differential on each coil. Concrete hardware is reached
//! through the [`stepper::SetPhaseAndDutyCycle`] capability; [`channel`] holds
//! an adapter that maps phase angles onto raw duty/phase register values and
//! validates every write by reading it back.

pub mod channel;
pub mod errors;
pub mod sim;
pub mod stepper;
