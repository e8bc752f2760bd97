//! The closed choice of a proving pipeline by the field of the circuit.

use vstd::prelude::*;
use crate::field::FieldType;

verus! {

/// The hash that drives the transcript of a pipeline.
#[derive(Clone, Copy, Debug, PartialEq, Eq, Structural)]
pub enum TranscriptHash {
    Sha2,
    MIMC5,
}

/// The variant of the proof scheme.
#[derive(Clone, Copy, Debug, PartialEq, Eq, Structural)]
pub enum Scheme {
    Vanilla,
    GkrSquare,
}

/// The pipelines a process can run. One is chosen when the process starts
/// and kept until it ends.
#[derive(Clone, Copy, Debug, PartialEq, Eq, Structural)]
pub enum Pipeline {
    /// Mersenne-31 extension field, transcript over SHA-2.
    M31ExtSha2,
    /// BN254 scalar field, transcript over MiMC5.
    BN254MIMC5,
    /// Binary extension field, transcript over SHA-2.
    GF2ExtSha2,
}

impl Pipeline {
    /// The field this pipeline computes in.
    pub open spec fn spec_field(self) -> FieldType {
        match self {
            Pipeline::M31ExtSha2 => FieldType::M31,
            Pipeline::BN254MIMC5 => FieldType::BN254,
            Pipeline::GF2ExtSha2 => FieldType::GF2,
        }
    }

    /// The hash of this pipeline's transcript.
    pub open spec fn spec_hash(self) -> TranscriptHash {
        match self {
            Pipeline::M31ExtSha2 => TranscriptHash::Sha2,
            Pipeline::BN254MIMC5 => TranscriptHash::MIMC5,
            Pipeline::GF2ExtSha2 => TranscriptHash::Sha2,
        }
    }

    /// The field this pipeline computes in.
    #[verifier::when_used_as_spec(spec_field)]
    pub fn field(self) -> (out: FieldType)
        ensures
            out == self.spec_field(),
    {
        match self {
            Pipeline::M31ExtSha2 => FieldType::M31,
            Pipeline::BN254MIMC5 => FieldType::BN254,
            Pipeline::GF2ExtSha2 => FieldType::GF2,
        }
    }

    /// The hash of this pipeline's transcript.
    #[verifier::when_used_as_spec(spec_hash)]
    pub fn hash(self) -> (out: TranscriptHash)
        ensures
            out == self.spec_hash(),
    {
        match self {
            Pipeline::M31ExtSha2 => TranscriptHash::Sha2,
            Pipeline::BN254MIMC5 => TranscriptHash::MIMC5,
            Pipeline::GF2ExtSha2 => TranscriptHash::Sha2,
        }
    }

    /// The scheme every pipeline runs.
    pub fn scheme(self) -> (out: Scheme)
        ensures
            out == Scheme::Vanilla,
    {
        Scheme::Vanilla
    }
}

/// The pipeline for a field.
pub open spec fn pipeline_of(tag: FieldType) -> Pipeline {
    match tag {
        FieldType::M31 => Pipeline::M31ExtSha2,
        FieldType::BN254 => Pipeline::BN254MIMC5,
        FieldType::GF2 => Pipeline::GF2ExtSha2,
    }
}

/// Chooses the pipeline for the field a circuit was compiled for. Each
/// field has exactly one, and that one computes in the field.
pub fn select_pipeline(tag: FieldType) -> (out: Pipeline)
    ensures
        out == pipeline_of(tag),
        out.spec_field() == tag,
{
    match tag {
        FieldType::M31 => Pipeline::M31ExtSha2,
        FieldType::BN254 => Pipeline::BN254MIMC5,
        FieldType::GF2 => Pipeline::GF2ExtSha2,
    }
}

} // verus!
