use vstd::prelude::*;

verus! {

/// The two test gases a sensor cell is calibrated with.
#[derive(Debug, Clone, Copy, PartialEq, Eq)]
pub enum GasType {
    /// Zero gas: the reference point without the target gas.
    Nullgas,
    /// Span gas: the reference point with a known concentration.
    Messgas,
}

} // verus!
