//! Error taxonomy of the pipeline stages.
//!
//! Structural and configuration errors are fatal to the stage that raises
//! them; transient conditions are absorbed by retrying and never surface as
//! values of these types. The unverified shell formats its own messages from
//! the variants.

use vstd::prelude::*;

verus! {

/// Failure of the ingest stage.
#[derive(Clone, Copy, Debug, PartialEq, Eq, Structural)]
pub enum IngestError {
    /// The datagram did not hold exactly the 24 bytes of the Stokes wire
    /// schema: the two ends disagree on the format, which is fatal.
    SchemaViolation { size: usize },
}

/// Rejected highpass filter design parameters, fatal at stage startup.
#[derive(Clone, Copy, Debug, PartialEq, Eq, Structural)]
pub enum FilterDesignError {
    /// The filter order was zero.
    ZeroOrder,
    /// The cutoff, normalized by the Nyquist frequency, fell outside the
    /// open interval from zero to one.
    CutoffOutOfRange,
}

/// Rejected spectral stage configuration, fatal at construction.
#[derive(Clone, Copy, Debug, PartialEq, Eq, Structural)]
pub enum SpectralConfigError {
    /// The window size was zero.
    ZeroWindow,
}

/// Failure to frame an egress block.
#[derive(Clone, Copy, Debug, PartialEq, Eq, Structural)]
pub enum EgressError {
    /// The sample count did not fit the 16-bit block-size field.
    BlockTooLarge { len: usize },
}

/// Failure of a steady-state stage loop: the peer end of an inter-stage
/// queue is gone, so the stage can never make progress again.
#[derive(Clone, Copy, Debug, PartialEq, Eq, Structural)]
pub enum StageError {
    ChannelDisconnected,
}

} // verus!
