use vstd::prelude::*;

verus! {

/// Bit of the control/acknowledge mode word that requests (or reports) validation.
pub const VALIDATION_BIT: u32 = 20;

/// Bit of the control/acknowledge mode word that requests (or reports) execution.
pub const EXECUTION_BIT: u32 = 19;

/// Bit of the control/acknowledge mode word that requests (or reports) query state.
pub const STATE_BIT: u32 = 18;

/// Whether bit `n` of `word` is set.
pub open spec fn bit_is_set(word: u32, n: u32) -> bool {
    word & (1u32 << n) != 0
}

/// The control/acknowledge mode (CAM) word of a command packet, held as its
/// 32-bit wire value.
#[derive(Clone, Copy, Debug, PartialEq, Eq, PartialOrd, Ord, Hash, Structural)]
pub struct ControlAckMode {
    word: u32,
}

impl View for ControlAckMode {
    type V = u32;

    closed spec fn view(&self) -> u32 {
        self.word
    }
}

impl ControlAckMode {
    /// The CAM held by a 32-bit word as it stands on the wire.
    pub fn from_word(word: u32) -> (r: ControlAckMode)
        ensures
            r@ == word,
    {
        ControlAckMode { word }
    }

    /// The 32-bit wire value of this CAM.
    pub fn as_word(&self) -> (r: u32)
        ensures
            r == self@,
    {
        self.word
    }

    /// Whether the validation bit is set.
    pub fn validation(&self) -> (r: bool)
        ensures
            r == bit_is_set(self@, VALIDATION_BIT),
    {
        self.word & (1u32 << VALIDATION_BIT) != 0
    }

    /// Whether the execution bit is set.
    pub fn execution(&self) -> (r: bool)
        ensures
            r == bit_is_set(self@, EXECUTION_BIT),
    {
        self.word & (1u32 << EXECUTION_BIT) != 0
    }

    /// Whether the query state bit is set.
    pub fn state(&self) -> (r: bool)
        ensures
            r == bit_is_set(self@, STATE_BIT),
    {
        self.word & (1u32 << STATE_BIT) != 0
    }

    /// Set the validation bit, leaving the others as they were.
    pub fn set_validation(&mut self)
        ensures
            final(self)@ == old(self)@ | (1u32 << VALIDATION_BIT),
    {
        self.word = self.word | (1u32 << VALIDATION_BIT);
    }

    /// Set the execution bit, leaving the others as they were.
    pub fn set_execution(&mut self)
        ensures
            final(self)@ == old(self)@ | (1u32 << EXECUTION_BIT),
    {
        self.word = self.word | (1u32 << EXECUTION_BIT);
    }

    /// Set the query state bit, leaving the others as they were.
    pub fn set_state(&mut self)
        ensures
            final(self)@ == old(self)@ | (1u32 << STATE_BIT),
    {
        self.word = self.word | (1u32 << STATE_BIT);
    }
}

} // verus!
