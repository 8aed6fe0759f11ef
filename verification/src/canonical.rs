//! The canonical, version-independent data model.
//!
//! Canonical shapes are a superset of every supported wire version's shape:
//! any wire message of any supported version embeds into the canonical model
//! without loss. Canonical values live for a single request/response cycle.

use vstd::prelude::*;

verus! {

/// An immutable vector entity: an identifier and an ordered sequence of
/// 32-bit scalar values.
#[derive(Clone, Debug, PartialEq)]
pub struct Vector {
    pub id: String,
    pub values: Vec<u32>,
}

/// The mathematical model of a [`Vector`].
#[verifier::ext_equal]
pub struct VectorModel {
    pub id: Seq<char>,
    pub values: Seq<u32>,
}

impl View for Vector {
    type V = VectorModel;

    open spec fn view(&self) -> VectorModel {
        VectorModel { id: self.id@, values: self.values@ }
    }
}

/// Canonical print request: at most one vector to print.
#[derive(Clone, Debug, PartialEq)]
pub struct PrintRequest {
    pub vector: Option<Vector>,
}

impl View for PrintRequest {
    type V = Option<VectorModel>;

    open spec fn view(&self) -> Option<VectorModel> {
        match self.vector {
            Some(v) => Some(v@),
            None => None,
        }
    }
}

/// Canonical print response: how many vectors were printed.
#[derive(Clone, Copy, Debug, PartialEq, Eq, Structural)]
pub struct PrintResponse {
    pub printed_count: u32,
}

impl View for PrintResponse {
    type V = u32;

    open spec fn view(&self) -> u32 {
        self.printed_count
    }
}

/// Canonical sum request: an ordered sequence of vectors (zero or more).
#[derive(Clone, Debug, PartialEq)]
pub struct SumRequest {
    pub vectors: Vec<Vector>,
}

impl View for SumRequest {
    type V = Seq<VectorModel>;

    open spec fn view(&self) -> Seq<VectorModel> {
        self.vectors@.map_values(|v: Vector| v@)
    }
}

/// Canonical sum response: one sum per requested vector, index-aligned with
/// the request's vectors.
#[derive(Clone, Debug, PartialEq)]
pub struct SumResponse {
    pub sum: Vec<u32>,
}

impl View for SumResponse {
    type V = Seq<u32>;

    open spec fn view(&self) -> Seq<u32> {
        self.sum@
    }
}

} // verus!
