//! The proving backends and the conventions of each.

use crate::codec::{InputCodec, OutputCodec};
use vstd::prelude::*;

verus! {

/// A proving backend.
#[derive(Clone, Copy, Debug, PartialEq, Eq, Structural)]
pub enum Backend {
    OpenVm,
    Pico,
    Risc0,
    Sp1,
    Valida,
    Nexus,
}

/// Whether a run proves, or only executes the guest program.
#[derive(Clone, Copy, Debug, PartialEq, Eq, Structural)]
pub enum RunMode {
    ExecuteOnly,
    Prove,
}

/// How a backend's guest program is fed and how it answers.
#[derive(Clone, Copy, Debug, PartialEq, Eq, Structural)]
pub struct Conventions {
    pub input: InputCodec,
    pub output: OutputCodec,
    /// Whether the backend can produce a proof that its verifier checks.
    pub can_prove: bool,
}

impl Backend {
    /// The conventions of each backend.
    ///
    /// OpenVM, Valida and Nexus hand the guest program one record with the
    /// state and the header back to back; Pico, RISC Zero and SP1 write the
    /// two as records of their own. OpenVM publishes the output word by
    /// word; Pico, SP1 and Valida hand back one buffer; RISC Zero and Nexus
    /// commit the output as a value. Valida only executes.
    pub open spec fn conventions_spec(self) -> Conventions {
        match self {
            Backend::OpenVm => Conventions {
                input: InputCodec::Concatenated,
                output: OutputCodec::WordReveal,
                can_prove: true,
            },
            Backend::Pico => Conventions {
                input: InputCodec::SequentialRecords,
                output: OutputCodec::ByteBuffer,
                can_prove: true,
            },
            Backend::Risc0 => Conventions {
                input: InputCodec::SequentialRecords,
                output: OutputCodec::Typed,
                can_prove: true,
            },
            Backend::Sp1 => Conventions {
                input: InputCodec::SequentialRecords,
                output: OutputCodec::ByteBuffer,
                can_prove: true,
            },
            Backend::Valida => Conventions {
                input: InputCodec::Concatenated,
                output: OutputCodec::ByteBuffer,
                can_prove: false,
            },
            Backend::Nexus => Conventions {
                input: InputCodec::Concatenated,
                output: OutputCodec::Typed,
                can_prove: true,
            },
        }
    }

    /// The name that a report carries for each backend.
    pub open spec fn name_spec(self) -> Seq<char> {
        match self {
            Backend::OpenVm => "openvm"@,
            Backend::Pico => "pico"@,
            Backend::Risc0 => "risc0"@,
            Backend::Sp1 => "sp1"@,
            Backend::Valida => "valida"@,
            Backend::Nexus => "nexus"@,
        }
    }

    /// The name that a report carries for this backend.
    pub fn name(self) -> (name: &'static str)
        ensures
            name@ == self.name_spec(),
    {
        match self {
            Backend::OpenVm => "openvm",
            Backend::Pico => "pico",
            Backend::Risc0 => "risc0",
            Backend::Sp1 => "sp1",
            Backend::Valida => "valida",
            Backend::Nexus => "nexus",
        }
    }

    /// The conventions of this backend.
    pub fn conventions(self) -> (c: Conventions)
        ensures
            c == self.conventions_spec(),
    {
        match self {
            Backend::OpenVm => Conventions {
                input: InputCodec::Concatenated,
                output: OutputCodec::WordReveal,
                can_prove: true,
            },
            Backend::Pico => Conventions {
                input: InputCodec::SequentialRecords,
                output: OutputCodec::ByteBuffer,
                can_prove: true,
            },
            Backend::Risc0 => Conventions {
                input: InputCodec::SequentialRecords,
                output: OutputCodec::Typed,
                can_prove: true,
            },
            Backend::Sp1 => Conventions {
                input: InputCodec::SequentialRecords,
                output: OutputCodec::ByteBuffer,
                can_prove: true,
            },
            Backend::Valida => Conventions {
                input: InputCodec::Concatenated,
                output: OutputCodec::ByteBuffer,
                can_prove: false,
            },
            Backend::Nexus => Conventions {
                input: InputCodec::Concatenated,
                output: OutputCodec::Typed,
                can_prove: true,
            },
        }
    }
}

} // verus!
