use vstd::prelude::*;

verus! {

/// A logic level driven onto a binary output line.
#[derive(Clone, Copy, Debug, PartialEq, Eq, Structural)]
pub enum Level {
    Low,
    High,
}

/// A binary-output capability: a line the platform can drive high or low.
///
/// Implemented by the platform, consumed by the drivers in this crate.
/// `writes` is the history of levels successfully driven onto the line,
/// oldest first; a write that fails leaves the line, and so the history,
/// unchanged. Each write is fallible with an implementation-defined error.
pub trait BinaryOutput {
    type Error;

    /// The levels successfully written to this line so far, oldest first.
    spec fn writes(&self) -> Seq<Level>;

    /// Drives the line low, recording the write on success.
    fn set_low(&mut self) -> (r: Result<(), Self::Error>)
        ensures
            r is Ok ==> final(self).writes() == old(self).writes().push(Level::Low),
            r is Err ==> final(self).writes() == old(self).writes(),
    ;

    /// Drives the line high, recording the write on success.
    fn set_high(&mut self) -> (r: Result<(), Self::Error>)
        ensures
            r is Ok ==> final(self).writes() == old(self).writes().push(Level::High),
            r is Err ==> final(self).writes() == old(self).writes(),
    ;
}

/// A duty-cycle output capability: a periodic signal whose on-fraction the
/// caller sets as `num / denom` of full scale.
///
/// Implemented by the platform, consumed by the drivers in this crate.
/// `writes` is the history of fractions successfully applied, oldest first;
/// the last one persists until the next write. A write that fails leaves the
/// output, and so the history, unchanged.
pub trait DutyCycleOutput {
    type Error;

    /// The duty fractions `(numerator, denominator)` successfully written to
    /// this output so far, oldest first.
    spec fn writes(&self) -> Seq<(u16, u16)>;

    /// Sets the duty cycle to the fraction `num / denom` of full scale,
    /// recording the write on success.
    fn set_duty_fraction(&mut self, num: u16, denom: u16) -> (r: Result<(), Self::Error>)
        requires
            0 < denom,
            num <= denom,
        ensures
            r is Ok ==> final(self).writes() == old(self).writes().push((num, denom)),
            r is Err ==> final(self).writes() == old(self).writes(),
    ;
}

} // verus!
