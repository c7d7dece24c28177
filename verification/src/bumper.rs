use vstd::prelude::*;

verus! {

/// One bumper switch's latch state: `Clear` until a qualifying edge fires,
/// `Pending` from then until the polling loop drains it.
#[derive(Clone, Copy, Debug, PartialEq, Eq, Structural)]
pub enum LatchState {
    Clear,
    Pending,
}

/// A pair of single-bit event latches, one per bumper switch, bridging the
/// asynchronous edge handler into the polling loop. The handler's whole
/// effect is to set a flag to `Pending`; the loop reads and clears it as one
/// observable step. Repeated edges before a drain coalesce into a single
/// `Pending`: the latch promises at least one event, not exactly one per
/// press.
///
/// On the target each flag lives in an atomic cell with exactly one writer
/// role (the edge handler, store with release ordering) and one reader role
/// (the polling loop, load with acquire ordering); that pairing makes the
/// loop observe `Pending` exactly when an edge fired before the read. This
/// type holds the state machine those accesses implement; the platform layer
/// supplies the cells and calls `notify_*` from the handler and `drain_*`
/// from the loop.
pub struct BumperLatch {
    left: LatchState,
    right: LatchState,
}

impl BumperLatch {
    /// The left switch's latch state.
    pub closed spec fn spec_left(&self) -> LatchState {
        self.left
    }

    /// The right switch's latch state.
    pub closed spec fn spec_right(&self) -> LatchState {
        self.right
    }

    /// Both latches start out `Clear`.
    pub fn new() -> (latch: BumperLatch)
        ensures
            latch.spec_left() == LatchState::Clear,
            latch.spec_right() == LatchState::Clear,
    {
        BumperLatch { left: LatchState::Clear, right: LatchState::Clear }
    }

    /// The left edge handler's effect: latch the event. A second edge before
    /// the drain leaves the flag `Pending` all the same.
    pub fn notify_left_edge(&mut self)
        ensures
            final(self).spec_left() == LatchState::Pending,
            final(self).spec_right() == old(self).spec_right(),
    {
        self.left = LatchState::Pending;
    }

    /// The right edge handler's effect: latch the event. A second edge
    /// before the drain leaves the flag `Pending` all the same.
    pub fn notify_right_edge(&mut self)
        ensures
            final(self).spec_right() == LatchState::Pending,
            final(self).spec_left() == old(self).spec_left(),
    {
        self.right = LatchState::Pending;
    }

    /// The polling loop's read-and-clear of the left flag: reports whether
    /// an edge fired since the last drain and unconditionally resets the
    /// flag to `Clear` in the same step.
    pub fn drain_left(&mut self) -> (pressed: bool)
        ensures
            pressed == (old(self).spec_left() == LatchState::Pending),
            final(self).spec_left() == LatchState::Clear,
            final(self).spec_right() == old(self).spec_right(),
    {
        let pressed = matches!(self.left, LatchState::Pending);
        self.left = LatchState::Clear;
        pressed
    }

    /// The polling loop's read-and-clear of the right flag; same contract as
    /// `drain_left`, on the right flag.
    pub fn drain_right(&mut self) -> (pressed: bool)
        ensures
            pressed == (old(self).spec_right() == LatchState::Pending),
            final(self).spec_right() == LatchState::Clear,
            final(self).spec_left() == old(self).spec_left(),
    {
        let pressed = matches!(self.right, LatchState::Pending);
        self.right = LatchState::Clear;
        pressed
    }
}

impl Default for BumperLatch {
    /// Same as `new`: both latches `Clear`.
    fn default() -> (latch: BumperLatch)
        ensures
            latch.spec_left() == LatchState::Clear,
            latch.spec_right() == LatchState::Clear,
    {
        BumperLatch::new()
    }
}

} // verus!
