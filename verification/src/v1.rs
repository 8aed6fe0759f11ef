//! Wire shapes of schema version V1.
//!
//! V1 restricts the sum operation to at most one input vector and exactly one
//! aggregate output sum; its print shapes match the canonical ones exactly.

use vstd::prelude::*;
use crate::canonical::{Vector, VectorModel};

verus! {

/// V1 print request: at most one vector to print.
#[derive(Clone, Debug, PartialEq)]
pub struct PrintRequest {
    pub vector: Option<Vector>,
}

impl View for PrintRequest {
    type V = Option<VectorModel>;

    open spec fn view(&self) -> Option<VectorModel> {
        match self.vector {
            Some(v) => Some(v@),
            None => None,
        }
    }
}

/// V1 print response: how many vectors were printed.
#[derive(Clone, Copy, Debug, PartialEq, Eq, Structural)]
pub struct PrintResponse {
    pub printed_count: u32,
}

impl View for PrintResponse {
    type V = u32;

    open spec fn view(&self) -> u32 {
        self.printed_count
    }
}

/// V1 sum request: at most one input vector.
#[derive(Clone, Debug, PartialEq)]
pub struct SumRequest {
    pub vector: Option<Vector>,
}

impl View for SumRequest {
    type V = Option<VectorModel>;

    open spec fn view(&self) -> Option<VectorModel> {
        match self.vector {
            Some(v) => Some(v@),
            None => None,
        }
    }
}

/// V1 sum response: exactly one aggregate sum.
#[derive(Clone, Copy, Debug, PartialEq, Eq, Structural)]
pub struct SumResponse {
    pub sum: u32,
}

impl View for SumResponse {
    type V = u32;

    open spec fn view(&self) -> u32 {
        self.sum
    }
}

} // verus!
