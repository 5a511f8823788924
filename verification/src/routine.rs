use vstd::prelude::*;

verus! {

/// The communication primitive a benchmark run exercises.
#[derive(Debug, Clone, Copy, PartialEq, Eq, Structural)]
pub enum Routine {
    Get,
    Put,
    AtomicAdd,
    AtomicCmpSwp,
    AtomicFetch,
    AtomicInc,
    Barrier,
}

impl Routine {
    /// Whether the measured loop sweeps over a set of message sizes.
    /// Only the bulk-transfer routines do; the atomic and barrier
    /// routines measure a single fixed-size operation.
    pub fn uses_msg_size(&self) -> (b: bool)
        ensures
            b == (self is Get || self is Put),
    {
        match self {
            Routine::Get | Routine::Put => true,
            _ => false,
        }
    }

    /// The routine's display name, as the report banner shows it.
    pub open spec fn spec_label(&self) -> Seq<char> {
        match self {
            Routine::Get => "Get"@,
            Routine::Put => "Put"@,
            Routine::AtomicAdd => "AtomicAdd"@,
            Routine::AtomicCmpSwp => "AtomicCmpSwp"@,
            Routine::AtomicFetch => "AtomicFetch"@,
            Routine::AtomicInc => "AtomicInc"@,
            Routine::Barrier => "Barrier"@,
        }
    }

    /// The routine's display name.
    pub fn label(&self) -> (s: &'static str)
        ensures
            s@ == self.spec_label(),
    {
        match self {
            Routine::Get => "Get",
            Routine::Put => "Put",
            Routine::AtomicAdd => "AtomicAdd",
            Routine::AtomicCmpSwp => "AtomicCmpSwp",
            Routine::AtomicFetch => "AtomicFetch",
            Routine::AtomicInc => "AtomicInc",
            Routine::Barrier => "Barrier",
        }
    }

    /// The noun naming one operation in the scalar report line, e.g.
    /// "Avg Time per Increment (us)".
    pub open spec fn spec_op_noun(&self) -> Seq<char> {
        match self {
            Routine::Get => "Get"@,
            Routine::Put => "Put"@,
            Routine::AtomicAdd => "Add"@,
            Routine::AtomicCmpSwp => "Compare+Swap"@,
            Routine::AtomicFetch => "Fetch"@,
            Routine::AtomicInc => "Increment"@,
            Routine::Barrier => "Barrier"@,
        }
    }

    /// The noun naming one operation in the scalar report line.
    pub fn op_noun(&self) -> (s: &'static str)
        ensures
            s@ == self.spec_op_noun(),
    {
        match self {
            Routine::Get => "Get",
            Routine::Put => "Put",
            Routine::AtomicAdd => "Add",
            Routine::AtomicCmpSwp => "Compare+Swap",
            Routine::AtomicFetch => "Fetch",
            Routine::AtomicInc => "Increment",
            Routine::Barrier => "Barrier",
        }
    }
}

} // verus!
