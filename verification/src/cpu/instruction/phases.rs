use vstd::prelude::*;

verus! {

/// The phases of an instruction that takes two machine cycles.
#[derive(Debug, Clone, Copy, PartialEq, Eq, Structural)]
pub enum TwoPhases {
    /// The first machine cycle.
    First,
    /// The second machine cycle.
    Second,
}

/// The phases of an instruction that takes three machine cycles.
#[derive(Debug, Clone, Copy, PartialEq, Eq, Structural)]
pub enum ThreePhases {
    /// The first machine cycle.
    First,
    /// The second machine cycle.
    Second,
    /// The third machine cycle.
    Third,
}

/// The phases of an instruction that takes four machine cycles.
#[derive(Debug, Clone, Copy, PartialEq, Eq, Structural)]
pub enum FourPhases {
    /// The first machine cycle.
    First,
    /// The second machine cycle.
    Second,
    /// The third machine cycle.
    Third,
    /// The fourth machine cycle.
    Fourth,
}

/// The phases of an instruction that takes five machine cycles.
#[derive(Debug, Clone, Copy, PartialEq, Eq, Structural)]
pub enum FivePhases {
    /// The first machine cycle.
    First,
    /// The second machine cycle.
    Second,
    /// The third machine cycle.
    Third,
    /// The fourth machine cycle.
    Fourth,
    /// The fifth machine cycle.
    Fifth,
}

/// The phases of an instruction that takes six machine cycles.
#[derive(Debug, Clone, Copy, PartialEq, Eq, Structural)]
pub enum SixPhases {
    /// The first machine cycle.
    First,
    /// The second machine cycle.
    Second,
    /// The third machine cycle.
    Third,
    /// The fourth machine cycle.
    Fourth,
    /// The fifth machine cycle.
    Fifth,
    /// The sixth machine cycle.
    Sixth,
}

} // verus!
