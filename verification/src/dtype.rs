//! Runtime dtypes and the numeric promotion lattice.
//!
//! `Dtype::comparison_op` is the single entry point every binary numeric
//! operation uses to find the common dtype of two operands: any float
//! dominates any integer, and among integers the result is the narrowest
//! dtype containing both ranges, promoting to a wider signed dtype when
//! signedness is mixed, saturating at 64 bits.

use vstd::prelude::*;

use crate::error::Error;

verus! {

/// Runtime tag identifying the element type of a column.
#[derive(Debug, Clone, Copy, PartialEq, Eq, Hash, Structural)]
pub enum Dtype {
    Int8,
    Int16,
    Int32,
    Int64,
    UInt8,
    UInt16,
    UInt32,
    UInt64,
    Float32,
    Float64,
    Boolean,
    Utf8,
    Null,
}

impl Dtype {
    /// The ten dtypes the numeric kernels accept.
    pub open spec fn spec_is_numeric(self) -> bool {
        self.spec_is_integer() || self.spec_is_float()
    }

    pub open spec fn spec_is_integer(self) -> bool {
        self.spec_is_signed_integer() || self.spec_is_unsigned_integer()
    }

    pub open spec fn spec_is_signed_integer(self) -> bool {
        self == Dtype::Int8 || self == Dtype::Int16 || self == Dtype::Int32 || self
            == Dtype::Int64
    }

    pub open spec fn spec_is_unsigned_integer(self) -> bool {
        self == Dtype::UInt8 || self == Dtype::UInt16 || self == Dtype::UInt32 || self
            == Dtype::UInt64
    }

    pub open spec fn spec_is_float(self) -> bool {
        self == Dtype::Float32 || self == Dtype::Float64
    }

    /// Fixed bit width of a numeric dtype; 0 for the non-numeric dtypes,
    /// whose widths the numeric core never consults.
    pub open spec fn spec_width(self) -> u32 {
        match self {
            Dtype::Int8 => 8,
            Dtype::Int16 => 16,
            Dtype::Int32 => 32,
            Dtype::Int64 => 64,
            Dtype::UInt8 => 8,
            Dtype::UInt16 => 16,
            Dtype::UInt32 => 32,
            Dtype::UInt64 => 64,
            Dtype::Float32 => 32,
            Dtype::Float64 => 64,
            Dtype::Boolean => 0,
            Dtype::Utf8 => 0,
            Dtype::Null => 0,
        }
    }

    #[verifier::when_used_as_spec(spec_is_numeric)]
    pub fn is_numeric(self) -> (r: bool)
        ensures
            r == self.spec_is_numeric(),
    {
        self.is_integer() || self.is_float()
    }

    #[verifier::when_used_as_spec(spec_is_integer)]
    pub fn is_integer(self) -> (r: bool)
        ensures
            r == self.spec_is_integer(),
    {
        matches!(
            self,
            Dtype::Int8 | Dtype::Int16 | Dtype::Int32 | Dtype::Int64 | Dtype::UInt8
                | Dtype::UInt16 | Dtype::UInt32 | Dtype::UInt64
        )
    }

    #[verifier::when_used_as_spec(spec_is_float)]
    pub fn is_float(self) -> (r: bool)
        ensures
            r == self.spec_is_float(),
    {
        matches!(self, Dtype::Float32 | Dtype::Float64)
    }

    #[verifier::when_used_as_spec(spec_is_signed_integer)]
    pub fn is_signed_integer(self) -> (r: bool)
        ensures
            r == self.spec_is_signed_integer(),
    {
        matches!(self, Dtype::Int8 | Dtype::Int16 | Dtype::Int32 | Dtype::Int64)
    }

    #[verifier::when_used_as_spec(spec_width)]
    pub fn width(self) -> (r: u32)
        ensures
            r == self.spec_width(),
    {
        match self {
            Dtype::Int8 => 8,
            Dtype::Int16 => 16,
            Dtype::Int32 => 32,
            Dtype::Int64 => 64,
            Dtype::UInt8 => 8,
            Dtype::UInt16 => 16,
            Dtype::UInt32 => 32,
            Dtype::UInt64 => 64,
            Dtype::Float32 => 32,
            Dtype::Float64 => 64,
            Dtype::Boolean => 0,
            Dtype::Utf8 => 0,
            Dtype::Null => 0,
        }
    }

    /// Computes the promotion triple `(lhs_cast, rhs_cast, result)`: the
    /// dtype each operand must be cast to and the dtype of the result. For
    /// this numeric lattice all three coincide; a cast is the identity
    /// whenever the operand already has the result dtype. Fails with a
    /// `TypeError` carrying both dtypes when either operand is non-numeric.
    pub fn comparison_op(&self, other: &Dtype) -> (r: Result<(Dtype, Dtype, Dtype), Error>)
        ensures
            self.spec_is_numeric() && other.spec_is_numeric() ==> r == Ok::<_, Error>(
                (promote(*self, *other), promote(*self, *other), promote(*self, *other)),
            ),
            !(self.spec_is_numeric() && other.spec_is_numeric()) ==> (r matches Err(e) && e@
                == crate::error::ErrorV::TypeError(seq![*self, *other])),
    {
        if !self.is_numeric() || !other.is_numeric() {
            let mut dtypes: Vec<Dtype> = Vec::new();
            dtypes.push(*self);
            dtypes.push(*other);
            proof {
                assert(dtypes@ =~= seq![*self, *other]);
            }
            return Err(Error::TypeError(dtypes));
        }
        let out = promote_dtypes(*self, *other);
        Ok((out, out, out))
    }
}

/// The signed or unsigned integer dtype of bit width `w`.
pub open spec fn integer_of_width(signed: bool, w: int) -> Dtype {
    if signed {
        if w == 8 {
            Dtype::Int8
        } else if w == 16 {
            Dtype::Int16
        } else if w == 32 {
            Dtype::Int32
        } else {
            Dtype::Int64
        }
    } else {
        if w == 8 {
            Dtype::UInt8
        } else if w == 16 {
            Dtype::UInt16
        } else if w == 32 {
            Dtype::UInt32
        } else {
            Dtype::UInt64
        }
    }
}

/// The common dtype of two numeric operands. Any float dominates any
/// integer; among integers the result has the larger of the two widths,
/// keeps the common signedness, and when signedness is mixed it is signed
/// with width at least the next wider width of the unsigned side,
/// saturating at 64 bits.
pub open spec fn promote(a: Dtype, b: Dtype) -> Dtype {
    if a == Dtype::Float64 || b == Dtype::Float64 {
        Dtype::Float64
    } else if a == Dtype::Float32 || b == Dtype::Float32 {
        Dtype::Float32
    } else {
        let wa = a.spec_width() as int;
        let wb = b.spec_width() as int;
        let w = if wa >= wb {
            wa
        } else {
            wb
        };
        if a.spec_is_signed_integer() == b.spec_is_signed_integer() {
            integer_of_width(a.spec_is_signed_integer(), w)
        } else {
            let uw = if a.spec_is_signed_integer() {
                wb
            } else {
                wa
            };
            let nw = if uw >= 64 {
                64
            } else {
                2 * uw
            };
            integer_of_width(true, if w >= nw {
                w
            } else {
                nw
            })
        }
    }
}

/// Executable form of `promote`.
fn promote_dtypes(a: Dtype, b: Dtype) -> (r: Dtype)
    requires
        a.spec_is_numeric(),
        b.spec_is_numeric(),
    ensures
        r == promote(a, b),
{
    if a == Dtype::Float64 || b == Dtype::Float64 {
        Dtype::Float64
    } else if a == Dtype::Float32 || b == Dtype::Float32 {
        Dtype::Float32
    } else {
        let wa = a.width();
        let wb = b.width();
        let w = if wa >= wb {
            wa
        } else {
            wb
        };
        let sa = a.is_signed_integer();
        let sb = b.is_signed_integer();
        if sa == sb {
            integer_dtype(sa, w)
        } else {
            let uw = if sa {
                wb
            } else {
                wa
            };
            let nw = if uw >= 64 {
                64
            } else {
                2 * uw
            };
            integer_dtype(true, if w >= nw {
                w
            } else {
                nw
            })
        }
    }
}

/// Executable form of `integer_of_width`.
fn integer_dtype(signed: bool, w: u32) -> (r: Dtype)
    ensures
        r == integer_of_width(signed, w as int),
{
    if signed {
        if w == 8 {
            Dtype::Int8
        } else if w == 16 {
            Dtype::Int16
        } else if w == 32 {
            Dtype::Int32
        } else {
            Dtype::Int64
        }
    } else {
        if w == 8 {
            Dtype::UInt8
        } else if w == 16 {
            Dtype::UInt16
        } else if w == 32 {
            Dtype::UInt32
        } else {
            Dtype::UInt64
        }
    }
}

/// Lattice totality: over numeric operands the promotion lattice always
/// yields a numeric dtype.
pub proof fn lemma_lattice_total(a: Dtype, b: Dtype)
    requires
        a.spec_is_numeric(),
        b.spec_is_numeric(),
    ensures
        promote(a, b).spec_is_numeric(),
{
}

/// Lattice symmetry: the result dtype does not depend on operand order.
pub proof fn lemma_lattice_symmetric(a: Dtype, b: Dtype)
    requires
        a.spec_is_numeric(),
        b.spec_is_numeric(),
    ensures
        promote(a, b) == promote(b, a),
{
}

/// Lattice idempotence: a numeric dtype promotes with itself to itself.
pub proof fn lemma_lattice_idempotent(a: Dtype)
    requires
        a.spec_is_numeric(),
    ensures
        promote(a, a) == a,
{
}

} // verus!
