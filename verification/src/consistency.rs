//! Consistency levels and their wire codes.

use vstd::prelude::*;

verus! {

/// How many replicas have to acknowledge a statement.
#[derive(Clone, Copy, Debug, PartialEq, Eq, Structural)]
pub enum Consistency {
    Any,
    One,
    Two,
    Three,
    Quorum,
    All,
    LocalQuorum,
    EachQuorum,
    Serial,
    LocalSerial,
    LocalOne,
}

impl Consistency {
    /// The 16-bit code that the protocol assigns to each level.
    pub open spec fn spec_code(self) -> u16 {
        match self {
            Consistency::Any => 0x0000,
            Consistency::One => 0x0001,
            Consistency::Two => 0x0002,
            Consistency::Three => 0x0003,
            Consistency::Quorum => 0x0004,
            Consistency::All => 0x0005,
            Consistency::LocalQuorum => 0x0006,
            Consistency::EachQuorum => 0x0007,
            Consistency::Serial => 0x0008,
            Consistency::LocalSerial => 0x0009,
            Consistency::LocalOne => 0x000A,
        }
    }

    /// The code of this level.
    pub fn code(self) -> (code: u16)
        ensures
            code == self.spec_code(),
            code <= 0x000A,
    {
        match self {
            Consistency::Any => 0x0000,
            Consistency::One => 0x0001,
            Consistency::Two => 0x0002,
            Consistency::Three => 0x0003,
            Consistency::Quorum => 0x0004,
            Consistency::All => 0x0005,
            Consistency::LocalQuorum => 0x0006,
            Consistency::EachQuorum => 0x0007,
            Consistency::Serial => 0x0008,
            Consistency::LocalSerial => 0x0009,
            Consistency::LocalOne => 0x000A,
        }
    }

    /// The level that `code` stands for, if it stands for one.
    pub fn from_code(code: u16) -> (level: Option<Consistency>)
        ensures
            level is Some <==> code <= 0x000A,
            level is Some ==> level->0.spec_code() == code,
    {
        match code {
            0x0000 => Some(Consistency::Any),
            0x0001 => Some(Consistency::One),
            0x0002 => Some(Consistency::Two),
            0x0003 => Some(Consistency::Three),
            0x0004 => Some(Consistency::Quorum),
            0x0005 => Some(Consistency::All),
            0x0006 => Some(Consistency::LocalQuorum),
            0x0007 => Some(Consistency::EachQuorum),
            0x0008 => Some(Consistency::Serial),
            0x0009 => Some(Consistency::LocalSerial),
            0x000A => Some(Consistency::LocalOne),
            _ => None,
        }
    }
}

/// No two levels share a code.
pub proof fn lemma_code_injective(a: Consistency, b: Consistency)
    requires
        a.spec_code() == b.spec_code(),
    ensures
        a == b,
{
}

} // verus!
