//! Error taxonomy for canonical/versioned conversion and dispatch.
//!
//! A `CardinalityError` is the typed, recoverable failure of projecting a
//! canonical value into a narrower wire version; it names the field and the
//! constraint that was violated. A `CallError` is what a shim hands back to
//! the transport: either an unrepresentable-response status or a
//! business-logic error passed through unmodified.

use vstd::prelude::*;

verus! {

/// A canonical field that a cardinality constraint can apply to.
#[derive(Clone, Copy, Debug, PartialEq, Eq, Structural)]
pub enum CanonicalField {
    /// The sequence of input vectors of a sum request.
    Vectors,
    /// The sequence of output sums of a sum response.
    Sum,
}

impl CanonicalField {
    /// The wire-level name of the field.
    pub fn name(&self) -> (r: String)
        ensures
            r@ == self.spec_name(),
    {
        let s: &str = match self {
            CanonicalField::Vectors => "vectors",
            CanonicalField::Sum => "sum",
        };
        proof {
            reveal_strlit("vectors");
            reveal_strlit("sum");
        }
        s.to_owned()
    }

    pub open spec fn spec_name(&self) -> Seq<char> {
        match self {
            CanonicalField::Vectors => "vectors"@,
            CanonicalField::Sum => "sum"@,
        }
    }
}

/// A cardinality constraint a wire version imposes on a canonical sequence.
#[derive(Clone, Copy, Debug, PartialEq, Eq, Structural)]
pub enum Cardinality {
    /// The sequence must hold zero or one element.
    AtMostOne,
    /// The sequence must hold exactly one element.
    ExactlyOne,
}

impl Cardinality {
    /// Whether a sequence of length `len` satisfies this constraint.
    pub open spec fn admits(&self, len: nat) -> bool {
        match self {
            Cardinality::AtMostOne => len <= 1,
            Cardinality::ExactlyOne => len == 1,
        }
    }
}

/// The canonical value's shape cannot be represented in the target wire
/// version: `field` has `actual` elements where the version's schema admits
/// only what `constraint` allows.
#[derive(Clone, Copy, Debug, PartialEq, Eq, Structural)]
pub struct CardinalityError {
    pub field: CanonicalField,
    pub constraint: Cardinality,
    pub actual: usize,
}

/// The mathematical model of a [`CardinalityError`], with an unbounded count.
#[verifier::ext_equal]
pub struct CardinalityErrorModel {
    pub field: CanonicalField,
    pub constraint: Cardinality,
    pub actual: nat,
}

impl View for CardinalityError {
    type V = CardinalityErrorModel;

    open spec fn view(&self) -> CardinalityErrorModel {
        CardinalityErrorModel {
            field: self.field,
            constraint: self.constraint,
            actual: self.actual as nat,
        }
    }
}

/// Maps an executable `Result` onto the models of its two sides.
pub open spec fn result_model<T: View, E: View>(r: Result<T, E>) -> Result<T::V, E::V> {
    match r {
        Ok(t) => Ok(t@),
        Err(e) => Err(e@),
    }
}

/// An error raised by the canonical-service implementation, passed through
/// shims with its content unmodified.
#[derive(Clone, Debug, PartialEq)]
pub struct BusinessError {
    pub message: String,
}

impl View for BusinessError {
    type V = Seq<char>;

    open spec fn view(&self) -> Seq<char> {
        self.message@
    }
}

/// The failure a shim reports for one call.
#[derive(Clone, Debug, PartialEq)]
pub enum CallError {
    /// The canonical response could not be narrowed into the wire version's
    /// schema.
    Unrepresentable(CardinalityError),
    /// The canonical-service implementation failed; its message is carried
    /// unmodified.
    Business(BusinessError),
}

/// The mathematical model of a [`CallError`].
#[verifier::ext_equal]
pub enum CallErrorModel {
    Unrepresentable(CardinalityErrorModel),
    Business(Seq<char>),
}

impl View for CallError {
    type V = CallErrorModel;

    open spec fn view(&self) -> CallErrorModel {
        match self {
            CallError::Unrepresentable(e) => CallErrorModel::Unrepresentable(e@),
            CallError::Business(b) => CallErrorModel::Business(b.message@),
        }
    }
}

} // verus!
