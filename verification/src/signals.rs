//! What a structure tells the world around it.

use crate::items::ItemKind;
use vstd::prelude::*;

verus! {

/// What a signal asks for or offers.
#[derive(Clone, Copy, Debug, PartialEq, Eq, Structural)]
pub enum SignalType {
    /// Items of this kind are wanted here.
    Pull(ItemKind),
    /// Items of this kind should be taken away from here.
    Push(ItemKind),
    /// Items of this kind can be picked up here.
    Contains(ItemKind),
    /// Items of this kind can be put down here.
    Stores(ItemKind),
}

/// How strong a signal is, in whole units.
#[derive(Clone, Copy, Debug, PartialEq, Eq, Structural)]
pub struct SignalStrength {
    pub value: u32,
}

impl SignalStrength {
    /// A signal of the given strength.
    pub fn new(value: u32) -> (strength: Self)
        ensures
            strength.value == value,
    {
        SignalStrength { value }
    }

    /// The strength as a number.
    pub fn value(&self) -> (value: u32)
        ensures
            value == self.value,
    {
        self.value
    }
}

/// The signals that one structure sends out.
#[derive(Debug)]
pub struct Emitter {
    /// Each signal with its strength, in the order in which they were raised.
    pub signals: Vec<(SignalType, SignalStrength)>,
}

impl Emitter {
    /// An emitter that sends nothing.
    pub fn new() -> (emitter: Self)
        ensures
            emitter.signals@ == Seq::<(SignalType, SignalStrength)>::empty(),
    {
        Emitter { signals: Vec::new() }
    }
}

} // verus!
