//! Wire shapes of schema version V2.
//!
//! V2 matches the canonical model exactly: a sum request carries any number
//! of vectors and the response carries one sum per vector, index-aligned.

use vstd::prelude::*;
use crate::canonical::{Vector, VectorModel};

verus! {

/// V2 print request: at most one vector to print.
#[derive(Clone, Debug, PartialEq)]
pub struct PrintRequest {
    pub vector: Option<Vector>,
}

impl View for PrintRequest {
    type V = Option<VectorModel>;

    open spec fn view(&self) -> Option<VectorModel> {
        match self.vector {
            Some(v) => Some(v@),
            None => None,
        }
    }
}

/// V2 print response: how many vectors were printed.
#[derive(Clone, Copy, Debug, PartialEq, Eq, Structural)]
pub struct PrintResponse {
    pub printed_count: u32,
}

impl View for PrintResponse {
    type V = u32;

    open spec fn view(&self) -> u32 {
        self.printed_count
    }
}

/// V2 sum request: any number of input vectors.
#[derive(Clone, Debug, PartialEq)]
pub struct SumRequest {
    pub vectors: Vec<Vector>,
}

impl View for SumRequest {
    type V = Seq<VectorModel>;

    open spec fn view(&self) -> Seq<VectorModel> {
        self.vectors@.map_values(|v: Vector| v@)
    }
}

/// V2 sum response: one sum per input vector, index-aligned.
#[derive(Clone, Debug, PartialEq)]
pub struct SumResponse {
    pub sum: Vec<u32>,
}

impl View for SumResponse {
    type V = Seq<u32>;

    open spec fn view(&self) -> Seq<u32> {
        self.sum@
    }
}

} // verus!
