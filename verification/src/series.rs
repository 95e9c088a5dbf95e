//! Named columns and the runtime-dtype dispatch for the binary numeric
//! kernels.
//!
//! `Series::binary_min` / `binary_max` find the common dtype of the two
//! operands through the promotion lattice, cast both operands to it, run
//! the dtype's kernel and wrap the result under the left operand's name.
//! `Series::clip` is `min(hi, max(x, lo))` element-wise; it deliberately
//! does not check `lo <= hi`, so an inverted range yields `hi` everywhere,
//! and a null in any operand row yields a null result row.

use vstd::prelude::*;

use crate::array::{
    cast_ok, cast_slot, in_range, max_slot, min_slot, DataArray, DataArrayV,
};
use crate::dtype::{lemma_lattice_idempotent, lemma_lattice_total, promote, Dtype};
use crate::error::{Error, ErrorV};
use crate::fbits::{is_nan32, is_nan64, key32, key64};
use vstd::string::StringExecFns;

verus! {

/// Ghost mirror of a `Series`.
#[verifier::ext_equal]
pub struct SeriesV {
    pub name: Seq<char>,
    pub array: DataArrayV,
}

/// A named immutable column: a human name plus a typed array.
#[derive(Debug)]
pub struct Series {
    pub name: String,
    pub array: DataArray,
}

impl View for Series {
    type V = SeriesV;

    open spec fn view(&self) -> SeriesV {
        SeriesV { name: self.name@, array: self.array@ }
    }
}

/// The value a supported cast produces for a slot, with 0 standing in for a
/// slot the checked cast nulled out.
pub open spec fn cast_or_zero(from: Dtype, to: Dtype, v: int) -> int {
    match cast_slot(from, to, v) {
        Some(w) => w,
        None => 0,
    }
}

/// Result value of one row of a binary `min`/`max` after both operands are
/// cast to the common dtype `dt`.
pub open spec fn select_value(
    dt: Dtype,
    lhs_dt: Dtype,
    rhs_dt: Dtype,
    a: int,
    b: int,
    take_max: bool,
) -> int {
    if take_max {
        max_slot(dt, cast_or_zero(lhs_dt, dt, a), cast_or_zero(rhs_dt, dt, b))
    } else {
        min_slot(dt, cast_or_zero(lhs_dt, dt, a), cast_or_zero(rhs_dt, dt, b))
    }
}

/// Validity of one result row: both operand rows valid and neither nulled
/// by its cast.
pub open spec fn select_valid(
    dt: Dtype,
    lhs_dt: Dtype,
    rhs_dt: Dtype,
    a: int,
    b: int,
    va: bool,
    vb: bool,
) -> bool {
    va && vb && cast_slot(lhs_dt, dt, a) is Some && cast_slot(rhs_dt, dt, b) is Some
}

/// Full behaviour of `Series::binary_min` (`take_max == false`) and
/// `Series::binary_max` (`take_max == true`): a `TypeError` carrying both
/// dtypes when either operand is non-numeric, a `ShapeMismatch` when the
/// lengths differ, and otherwise the element-wise selection at the promoted
/// dtype under the left operand's name.
pub open spec fn spec_binary_select(l: SeriesV, r: SeriesV, take_max: bool) -> Result<
    SeriesV,
    ErrorV,
> {
    if !(l.array.dtype.spec_is_numeric() && r.array.dtype.spec_is_numeric()) {
        Err(ErrorV::TypeError(seq![l.array.dtype, r.array.dtype]))
    } else if l.array.values.len() != r.array.values.len() {
        Err(
            ErrorV::ShapeMismatch {
                lhs_len: l.array.values.len() as usize,
                rhs_len: r.array.values.len() as usize,
            },
        )
    } else {
        let dt = promote(l.array.dtype, r.array.dtype);
        Ok(
            SeriesV {
                name: l.name,
                array: DataArrayV {
                    dtype: dt,
                    values: Seq::new(
                        l.array.values.len(),
                        |i: int|
                            select_value(
                                dt,
                                l.array.dtype,
                                r.array.dtype,
                                l.array.values[i],
                                r.array.values[i],
                                take_max,
                            ),
                    ),
                    validity: Seq::new(
                        l.array.values.len(),
                        |i: int|
                            select_valid(
                                dt,
                                l.array.dtype,
                                r.array.dtype,
                                l.array.values[i],
                                r.array.values[i],
                                l.array.validity[i],
                                r.array.validity[i],
                            ),
                    ),
                },
            },
        )
    }
}

/// Full behaviour of `Series::clip`: `max` against the lower bound, then
/// `min` against the upper bound, with the first failure propagated.
pub open spec fn spec_clip(x: SeriesV, lo: SeriesV, hi: SeriesV) -> Result<SeriesV, ErrorV> {
    match spec_binary_select(x, lo, true) {
        Ok(t) => spec_binary_select(t, hi, false),
        Err(e) => Err(e),
    }
}

/// Whether a slot value is a NaN pattern at dtype `dt`; never for
/// integers.
pub open spec fn slot_is_nan(dt: Dtype, v: int) -> bool {
    if dt == Dtype::Float32 {
        is_nan32(v as u32)
    } else if dt == Dtype::Float64 {
        is_nan64(v as u64)
    } else {
        false
    }
}

/// Order key of a non-NaN slot value at dtype `dt`: the value itself for
/// integers, the IEEE-754 value order key for floats. Two float patterns
/// with one key denote one value (the zeros excepted, which the key also
/// orders).
pub open spec fn slot_key(dt: Dtype, v: int) -> int {
    if dt == Dtype::Float32 {
        key32(v as u32)
    } else if dt == Dtype::Float64 {
        key64(v as u64)
    } else {
        v
    }
}

/// Value order of two slot values at dtype `dt`.
pub open spec fn slot_le(dt: Dtype, a: int, b: int) -> bool {
    slot_key(dt, a) <= slot_key(dt, b)
}

/// The kernels pick one of their operands: the result of `min_slot` /
/// `max_slot` over non-NaN in-range operands is one of the operands, is in
/// range, is not NaN, and sits at the smaller (resp. larger) key.
pub proof fn lemma_slot_select_bounds(dt: Dtype, a: int, b: int)
    requires
        dt.spec_is_numeric(),
        in_range(dt, a),
        in_range(dt, b),
        !slot_is_nan(dt, a),
        !slot_is_nan(dt, b),
    ensures
        min_slot(dt, a, b) == a || min_slot(dt, a, b) == b,
        max_slot(dt, a, b) == a || max_slot(dt, a, b) == b,
        slot_le(dt, min_slot(dt, a, b), a),
        slot_le(dt, min_slot(dt, a, b), b),
        slot_le(dt, a, max_slot(dt, a, b)),
        slot_le(dt, b, max_slot(dt, a, b)),
        !slot_is_nan(dt, min_slot(dt, a, b)),
        !slot_is_nan(dt, max_slot(dt, a, b)),
        in_range(dt, min_slot(dt, a, b)),
        in_range(dt, max_slot(dt, a, b)),
{
}

/// Kernel identity: `min(x, x)` and `max(x, x)` both return `x` itself,
/// row for row, nulls and NaN patterns included.
pub proof fn lemma_kernel_identity(x: SeriesV)
    requires
        x.array.wf(),
    ensures
        spec_binary_select(x, x, false) == Ok::<SeriesV, ErrorV>(x),
        spec_binary_select(x, x, true) == Ok::<SeriesV, ErrorV>(x),
{
    lemma_lattice_idempotent(x.array.dtype);
    let mn = spec_binary_select(x, x, false)->Ok_0;
    let mx = spec_binary_select(x, x, true)->Ok_0;
    assert forall|i: int| 0 <= i < x.array.values.len() implies mn.array.values[i]
        == x.array.values[i] && mx.array.values[i] == x.array.values[i] by {
        assert(in_range(x.array.dtype, x.array.values[i]));
    }
    assert(mn.array.values =~= x.array.values);
    assert(mn.array.validity =~= x.array.validity);
    assert(mn =~= x);
    assert(mx.array.values =~= x.array.values);
    assert(mx.array.validity =~= x.array.validity);
    assert(mx =~= x);
}

/// Kernel commutativity over non-NaN operands: the selected values are
/// equal as values (equal keys), and whenever the two values differ the
/// selected patterns coincide bit for bit. (Two distinct patterns with one
/// key do not exist; the one equal-valued pair with two patterns, the two
/// zeros, is ordered by the key as well, so the guard is exact.)
pub proof fn lemma_kernel_commutative(dt: Dtype, a: int, b: int)
    requires
        dt.spec_is_numeric(),
        in_range(dt, a),
        in_range(dt, b),
        !slot_is_nan(dt, a),
        !slot_is_nan(dt, b),
    ensures
        slot_key(dt, min_slot(dt, a, b)) == slot_key(dt, min_slot(dt, b, a)),
        slot_key(dt, max_slot(dt, a, b)) == slot_key(dt, max_slot(dt, b, a)),
        slot_key(dt, a) != slot_key(dt, b) ==> min_slot(dt, a, b) == min_slot(dt, b, a),
        slot_key(dt, a) != slot_key(dt, b) ==> max_slot(dt, a, b) == max_slot(dt, b, a),
{
}

/// The value `clip` computes in one row, once every operand is at the
/// common dtype.
pub open spec fn clip_slot(dt: Dtype, x: int, lo: int, hi: int) -> int {
    min_slot(dt, max_slot(dt, x, lo), hi)
}

/// Clip range: with a well-ordered range (`lo <= hi`) and non-NaN
/// operands, the clipped value lies between `lo` and `hi`.
pub proof fn lemma_clip_slot_range(dt: Dtype, x: int, lo: int, hi: int)
    requires
        dt.spec_is_numeric(),
        in_range(dt, x),
        in_range(dt, lo),
        in_range(dt, hi),
        !slot_is_nan(dt, x),
        !slot_is_nan(dt, lo),
        !slot_is_nan(dt, hi),
        slot_le(dt, lo, hi),
    ensures
        slot_le(dt, lo, clip_slot(dt, x, lo, hi)),
        slot_le(dt, clip_slot(dt, x, lo, hi), hi),
{
    lemma_slot_select_bounds(dt, x, lo);
    lemma_slot_select_bounds(dt, max_slot(dt, x, lo), hi);
}

/// Clip with an inverted range (`hi < lo`): the result is `hi` itself,
/// bit for bit, whatever `x` holds (numpy-compatible).
pub proof fn lemma_clip_slot_inverted(dt: Dtype, x: int, lo: int, hi: int)
    requires
        dt.spec_is_numeric(),
        in_range(dt, x),
        in_range(dt, lo),
        in_range(dt, hi),
        !slot_is_nan(dt, x),
        !slot_is_nan(dt, lo),
        !slot_is_nan(dt, hi),
        slot_key(dt, hi) < slot_key(dt, lo),
    ensures
        clip_slot(dt, x, lo, hi) == hi,
{
    lemma_slot_select_bounds(dt, x, lo);
}

/// Clip range at the level of `Series::clip`'s contract: for columns of one
/// numeric dtype and one length, clipping succeeds, and in every row whose
/// three operands are non-NaN and whose bounds are ordered the result lies
/// between the bounds. The result value in row `i` is exactly
/// `clip_slot` of the three operand values.
pub proof fn lemma_clip_series(x: SeriesV, lo: SeriesV, hi: SeriesV)
    requires
        x.array.wf(),
        lo.array.wf(),
        hi.array.wf(),
        lo.array.dtype == x.array.dtype,
        hi.array.dtype == x.array.dtype,
        lo.array.values.len() == x.array.values.len(),
        hi.array.values.len() == x.array.values.len(),
    ensures
        spec_clip(x, lo, hi) is Ok,
        spec_clip(x, lo, hi)->Ok_0.array.values.len() == x.array.values.len(),
        forall|i: int|
            0 <= i < x.array.values.len() ==> #[trigger] spec_clip(x, lo, hi)->Ok_0.array.values[i]
                == clip_slot(x.array.dtype, x.array.values[i], lo.array.values[i], hi.array.values[i]),
{
    let dt = x.array.dtype;
    lemma_lattice_idempotent(dt);
    let t = spec_binary_select(x, lo, true)->Ok_0;
    let c = spec_binary_select(t, hi, false)->Ok_0;
    assert forall|i: int| 0 <= i < x.array.values.len() implies #[trigger] c.array.values[i]
        == clip_slot(dt, x.array.values[i], lo.array.values[i], hi.array.values[i]) by {
        assert(in_range(dt, x.array.values[i]));
        assert(in_range(dt, lo.array.values[i]));
        assert(in_range(dt, hi.array.values[i]));
        assert(t.array.values[i] == max_slot(dt, x.array.values[i], lo.array.values[i]));
    }
}

/// Every cast the lattice prescribes is supported.
pub proof fn lemma_cast_ok_promote(a: Dtype, b: Dtype)
    requires
        a.spec_is_numeric(),
        b.spec_is_numeric(),
    ensures
        cast_ok(a, promote(a, b)),
        cast_ok(b, promote(a, b)),
{
}

impl Series {
    /// Well-formedness: the underlying array is well-formed.
    pub open spec fn wf(self) -> bool {
        self.array.wf()
    }

    /// Wraps an array under a name.
    pub fn new(name: String, array: DataArray) -> (r: Series)
        requires
            array.wf(),
        ensures
            r.wf(),
            r@.name == name@,
            r@.array == array@,
    {
        Series { name, array }
    }

    /// The column's name.
    pub fn name(&self) -> (r: &String)
        ensures
            r@ == self@.name,
    {
        &self.name
    }

    /// The column's dtype.
    pub fn dtype(&self) -> (r: Dtype)
        ensures
            r == self@.array.dtype,
    {
        self.array.dtype()
    }

    /// The number of rows.
    pub fn len(&self) -> (r: usize)
        ensures
            r == self@.array.values.len(),
    {
        self.array.len()
    }

    /// Element-wise minimum of two numeric columns at their promoted dtype.
    pub fn binary_min(&self, rhs: &Series) -> (r: Result<Series, Error>)
        requires
            self.wf(),
            rhs.wf(),
        ensures
            match spec_binary_select(self@, rhs@, false) {
                Ok(sv) => r matches Ok(s) && s.wf() && s@ == sv,
                Err(ev) => r matches Err(e) && e@ == ev,
            },
    {
        self.select(rhs, false)
    }

    /// Element-wise maximum of two numeric columns at their promoted dtype.
    pub fn binary_max(&self, rhs: &Series) -> (r: Result<Series, Error>)
        requires
            self.wf(),
            rhs.wf(),
        ensures
            match spec_binary_select(self@, rhs@, true) {
                Ok(sv) => r matches Ok(s) && s.wf() && s@ == sv,
                Err(ev) => r matches Err(e) && e@ == ev,
            },
    {
        self.select(rhs, true)
    }

    /// Element-wise clip: `min(hi, max(self, lo))`, numpy-style. An
    /// inverted range (`hi < lo`) is not an error; the result is then `hi`
    /// in every row.
    pub fn clip(&self, lo: &Series, hi: &Series) -> (r: Result<Series, Error>)
        requires
            self.wf(),
            lo.wf(),
            hi.wf(),
        ensures
            match spec_clip(self@, lo@, hi@) {
                Ok(sv) => r matches Ok(s) && s.wf() && s@ == sv,
                Err(ev) => r matches Err(e) && e@ == ev,
            },
    {
        match self.binary_max(lo) {
            Ok(t) => t.binary_min(hi),
            Err(e) => Err(e),
        }
    }

    /// Shared body of `binary_min` and `binary_max`: promote, cast both
    /// sides, run the kernel, rewrap under the left name.
    fn select(&self, rhs: &Series, take_max: bool) -> (r: Result<Series, Error>)
        requires
            self.wf(),
            rhs.wf(),
        ensures
            match spec_binary_select(self@, rhs@, take_max) {
                Ok(sv) => r matches Ok(s) && s.wf() && s@ == sv,
                Err(ev) => r matches Err(e) && e@ == ev,
            },
    {
        let lhs_dt = self.array.dtype();
        let rhs_dt = rhs.array.dtype();
        let out_dt = match lhs_dt.comparison_op(&rhs_dt) {
            Ok((_, _, dt)) => dt,
            Err(e) => {
                return Err(e);
            },
        };
        // The lattice is total over numeric dtypes, so the promoted dtype
        // is always one this dispatcher implements; the guard can never
        // fire, which the totality lemma proves.
        if !out_dt.is_numeric() {
            proof {
                lemma_lattice_total(self@.array.dtype, rhs@.array.dtype);
                assert(false);
            }
            return Err(Error::Internal);
        }
        if self.array.len() != rhs.array.len() {
            return Err(
                Error::ShapeMismatch { lhs_len: self.array.len(), rhs_len: rhs.array.len() },
            );
        }
        proof {
            lemma_cast_ok_promote(self@.array.dtype, rhs@.array.dtype);
        }
        let lhs_cast = match self.array.cast(out_dt) {
            Ok(a) => a,
            Err(_) => {
                proof {
                    assert(false);
                }
                return Err(Error::Internal);
            },
        };
        let rhs_cast = match rhs.array.cast(out_dt) {
            Ok(a) => a,
            Err(_) => {
                proof {
                    assert(false);
                }
                return Err(Error::Internal);
            },
        };
        let out_arr = if take_max {
            match lhs_cast.max(&rhs_cast) {
                Ok(a) => a,
                Err(_) => {
                    proof {
                        assert(false);
                    }
                    return Err(Error::Internal);
                },
            }
        } else {
            match lhs_cast.min(&rhs_cast) {
                Ok(a) => a,
                Err(_) => {
                    proof {
                        assert(false);
                    }
                    return Err(Error::Internal);
                },
            }
        };
        let out = Series { name: self.name.clone(), array: out_arr };
        proof {
            let sv = spec_binary_select(self@, rhs@, take_max)->Ok_0;
            assert(out@.array.values =~= sv.array.values);
            assert(out@.array.validity =~= sv.array.validity);
            assert(out@ =~= sv);
        }
        Ok(out)
    }
}

} // verus!
