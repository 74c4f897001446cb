//! Errors reported by the driver and its channel adapter.

use vstd::prelude::*;

verus! {

/// Error type for the crate.
///
/// All channel-level failures propagate unmodified up through the driver:
/// there are no retries and no partial recovery.
#[derive(Clone, Copy, Debug, PartialEq, Eq, Structural)]
pub enum Error {
    /// A phase write could not be confirmed on a channel.
    PhaseConfigurationError,
    /// A duty-cycle write could not be confirmed on a channel.
    DutyConfigurationError,
    /// Initial channel setup was rejected by the hardware.
    ChannelConfigurationError,
    /// The post-write commit status bit did not confirm.
    HardwareError,
}

} // verus!
