use vstd::prelude::*;

verus! {

/// Failures of the driver's operations.
#[derive(Debug, PartialEq, Eq, Copy, Clone)]
pub enum NCT3933Error<E> {
    /// The bus transaction failed; the bus's own error is carried along.
    I2C(E),
    /// The identification registers do not hold the expected pair.
    InvalidID,
    /// A channel outside 1..=3, or an out-of-range watchdog argument.
    InvalidChannel,
    /// A mode or enable flag outside 0..=1.
    InvalidMode,
    /// A current outside -2540..=2540 microamps.
    InvalidCurrent,
}

} // verus!
