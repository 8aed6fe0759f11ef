//! The canonical service interface and the vector-service implementation.
//!
//! The interface speaks canonical types only and has no awareness of wire
//! versions. Each implementation carries a spec-level model of its two
//! operations, so shims built over any implementation inherit an exact
//! description of a full call.

use vstd::prelude::*;
use vstd::arithmetic::div_mod::{lemma_add_mod_noop, lemma_small_mod};
use crate::canonical::{PrintRequest, PrintResponse, SumRequest, SumResponse, VectorModel};
use crate::error::{BusinessError, result_model};
use crate::meta::{Metadata, MetadataModel};

verus! {

/// Vector values are 32-bit scalars; aggregates wrap at this modulus.
pub const SCALAR_MODULUS: u64 = 0x1_0000_0000;

/// The exact mathematical sum of a sequence of scalars.
pub open spec fn scalar_sum(s: Seq<u32>) -> int
    decreases s.len(),
{
    if s.len() == 0 {
        0
    } else {
        scalar_sum(s.drop_last()) + s.last()
    }
}

/// The aggregate of one vector's values: their sum, wrapped at the scalar
/// modulus.
pub open spec fn wrapped_sum(s: Seq<u32>) -> u32 {
    (scalar_sum(s) % (SCALAR_MODULUS as int)) as u32
}

/// One aggregate per vector, index-aligned with the vectors.
pub open spec fn vector_sums(vs: Seq<VectorModel>) -> Seq<u32> {
    vs.map_values(|vm: VectorModel| wrapped_sum(vm.values))
}

/// How many vectors a print request carries.
pub open spec fn print_count(r: Option<VectorModel>) -> u32 {
    match r {
        Some(_) => 1,
        None => 0,
    }
}

/// The single interface business logic implements, expressed purely in
/// canonical types. Shims for every wire version delegate to one shared
/// instance of an implementation. The inbound call metadata is observable,
/// read-only; implementations must not depend on anything else.
pub trait CanonicalService: Sized {
    /// The mathematical behavior of [`Self::print`].
    spec fn print_model(&self, meta: MetadataModel, req: Option<VectorModel>) -> Result<
        u32,
        Seq<char>,
    >;

    /// The mathematical behavior of [`Self::sum`].
    spec fn sum_model(&self, meta: MetadataModel, req: Seq<VectorModel>) -> Result<
        Seq<u32>,
        Seq<char>,
    >;

    /// Handles one canonical print request.
    fn print(&self, meta: &Metadata, req: PrintRequest) -> (r: Result<
        PrintResponse,
        BusinessError,
    >)
        ensures
            result_model(r) == self.print_model(meta@, req@),
    ;

    /// Handles one canonical sum request.
    fn sum(&self, meta: &Metadata, req: SumRequest) -> (r: Result<SumResponse, BusinessError>)
        ensures
            result_model(r) == self.sum_model(meta@, req@),
    ;
}

/// The sum of one vector's values, wrapped at the scalar modulus.
pub fn sum_values(values: &Vec<u32>) -> (r: u32)
    ensures
        r == wrapped_sum(values@),
{
    let n = values.len();
    let mut acc: u32 = 0;
    let mut i: usize = 0;
    proof {
        assert(values@.subrange(0, 0) =~= Seq::<u32>::empty());
    }
    while i < n
        invariant
            i <= n,
            n == values@.len(),
            acc == wrapped_sum(values@.subrange(0, i as int)),
        decreases n - i,
    {
        let t: u64 = acc as u64 + values[i] as u64;
        let next: u64 = t % SCALAR_MODULUS;
        proof {
            let prefix = values@.subrange(0, i as int);
            let longer = values@.subrange(0, i + 1);
            let v = values@[i as int];
            assert(longer.drop_last() =~= prefix);
            assert(scalar_sum(longer) == scalar_sum(prefix) + v);
            lemma_add_mod_noop(scalar_sum(prefix), v as int, SCALAR_MODULUS as int);
            lemma_small_mod(v as nat, SCALAR_MODULUS as nat);
            assert(next == scalar_sum(longer) % (SCALAR_MODULUS as int));
        }
        acc = next as u32;
        i = i + 1;
    }
    proof {
        assert(values@.subrange(0, n as int) =~= values@);
    }
    acc
}

/// The demo vector service: prints vectors and sums each vector's values.
/// Stateless but named; safe for concurrent invocation, since a call's result
/// depends only on that call's own request.
#[derive(Clone, Debug)]
pub struct VectorHandler {
    pub name: String,
}

impl CanonicalService for VectorHandler {
    open spec fn print_model(&self, meta: MetadataModel, req: Option<VectorModel>) -> Result<
        u32,
        Seq<char>,
    > {
        Ok(print_count(req))
    }

    open spec fn sum_model(&self, meta: MetadataModel, req: Seq<VectorModel>) -> Result<
        Seq<u32>,
        Seq<char>,
    > {
        Ok(vector_sums(req))
    }

    /// Reports how many vectors the request carried.
    fn print(&self, meta: &Metadata, req: PrintRequest) -> (r: Result<
        PrintResponse,
        BusinessError,
    >) {
        let count: u32 = match &req.vector {
            Some(_) => 1,
            None => 0,
        };
        Ok(PrintResponse { printed_count: count })
    }

    /// Sums each vector's values, one aggregate per vector, index-aligned.
    fn sum(&self, meta: &Metadata, req: SumRequest) -> (r: Result<SumResponse, BusinessError>) {
        let ghost rm = req@;
        let n = req.vectors.len();
        let mut out: Vec<u32> = Vec::new();
        let mut i: usize = 0;
        proof {
            assert(out@ =~= vector_sums(rm).subrange(0, 0));
        }
        while i < n
            invariant
                i <= n,
                n == req.vectors@.len(),
                rm == req@,
                rm.len() == n,
                out@ == vector_sums(rm).subrange(0, i as int),
            decreases n - i,
        {
            let s = sum_values(&req.vectors[i].values);
            out.push(s);
            proof {
                assert(rm[i as int] == req.vectors@[i as int]@);
                assert(vector_sums(rm)[i as int] == wrapped_sum(rm[i as int].values));
                assert(out@ =~= vector_sums(rm).subrange(0, i + 1));
            }
            i = i + 1;
        }
        proof {
            assert(vector_sums(rm).subrange(0, n as int) =~= vector_sums(rm));
        }
        Ok(SumResponse { sum: out })
    }
}

} // verus!
