//! Typed columns and their element-wise kernels.
//!
//! A `DataArray` is a column of native values of one numeric dtype plus a
//! validity mask (one flag per slot). Signed values are carried in an `i64`
//! slot, unsigned values in a `u64` slot, and float values as their IEEE-754
//! bit patterns in a `u64` slot; the well-formedness invariant ties every
//! slot to the column's dtype and range. The kernels (`min`, `max`) use
//! total integer ordering for integer dtypes and NaN-propagating IEEE-754
//! ordering for float dtypes, and `cast` realises the casts the promotion
//! lattice prescribes.

use vstd::prelude::*;

use crate::dtype::Dtype;
use crate::error::Error;
use crate::fbits::{
    f32_bits_of_int, f32_from_i64, f32_from_u64, f64_bits_of_int, f64_from_i64, f64_from_u64,
    float_max32, float_max64, float_min32, float_min64, widen32, widen32_to64,
};

verus! {

/// One native slot: signed values, or unsigned values and float bit
/// patterns.
#[derive(Debug, Clone, Copy, PartialEq, Eq, Structural)]
pub enum Slot {
    I(i64),
    U(u64),
}

/// The integer a slot carries (float slots: the bit pattern).
pub open spec fn slot_int(v: Slot) -> int {
    match v {
        Slot::I(x) => x as int,
        Slot::U(x) => x as int,
    }
}

/// Whether the integer `v` lies in the native range of dtype `dt`.
pub open spec fn in_range(dt: Dtype, v: int) -> bool {
    match dt {
        Dtype::Int8 => -128 <= v < 128,
        Dtype::Int16 => -32768 <= v < 32768,
        Dtype::Int32 => -0x8000_0000 <= v < 0x8000_0000,
        Dtype::Int64 => -0x8000_0000_0000_0000 <= v < 0x8000_0000_0000_0000,
        Dtype::UInt8 => 0 <= v < 256,
        Dtype::UInt16 => 0 <= v < 65536,
        Dtype::UInt32 => 0 <= v < 0x1_0000_0000,
        Dtype::UInt64 => 0 <= v < 0x1_0000_0000_0000_0000,
        Dtype::Float32 => 0 <= v < 0x1_0000_0000,
        Dtype::Float64 => 0 <= v < 0x1_0000_0000_0000_0000,
        _ => false,
    }
}

/// Whether a slot is the right native carrier for dtype `dt` and in range.
pub open spec fn slot_fits(dt: Dtype, v: Slot) -> bool {
    match v {
        Slot::I(x) => dt.spec_is_signed_integer() && in_range(dt, x as int),
        Slot::U(x) => (dt.spec_is_unsigned_integer() || dt.spec_is_float()) && in_range(
            dt,
            x as int,
        ),
    }
}

/// Element-wise minimum at dtype `dt`: total order for integers,
/// NaN-propagating IEEE-754 order for floats (operands as bit patterns).
pub open spec fn min_slot(dt: Dtype, a: int, b: int) -> int {
    if dt == Dtype::Float32 {
        float_min32(a as u32, b as u32) as int
    } else if dt == Dtype::Float64 {
        float_min64(a as u64, b as u64) as int
    } else if a <= b {
        a
    } else {
        b
    }
}

/// Element-wise maximum at dtype `dt`.
pub open spec fn max_slot(dt: Dtype, a: int, b: int) -> int {
    if dt == Dtype::Float32 {
        float_max32(a as u32, b as u32) as int
    } else if dt == Dtype::Float64 {
        float_max64(a as u64, b as u64) as int
    } else if a >= b {
        a
    } else {
        b
    }
}

/// Ghost mirror of a `DataArray`: dtype, slot values (floats as bit
/// patterns) and validity flags.
pub struct DataArrayV {
    pub dtype: Dtype,
    pub values: Seq<int>,
    pub validity: Seq<bool>,
}

impl DataArrayV {
    /// Well-formedness at the view level.
    pub open spec fn wf(self) -> bool {
        &&& self.dtype.spec_is_numeric()
        &&& self.values.len() == self.validity.len()
        &&& forall|i: int| 0 <= i < self.values.len() ==> in_range(self.dtype, #[trigger] self.values[i])
    }
}

/// A column of native values of one numeric dtype plus a validity mask.
/// Length and dtype are fixed at construction.
#[derive(Debug)]
pub struct DataArray {
    pub dtype: Dtype,
    pub values: Vec<Slot>,
    pub validity: Vec<bool>,
}

impl View for DataArray {
    type V = DataArrayV;

    open spec fn view(&self) -> DataArrayV {
        DataArrayV {
            dtype: self.dtype,
            values: self.values@.map(|i: int, v: Slot| slot_int(v)),
            validity: self.validity@,
        }
    }
}

/// Executable check that a slot fits a dtype.
fn slot_fits_exec(dt: Dtype, v: Slot) -> (r: bool)
    ensures
        r == slot_fits(dt, v),
{
    match v {
        Slot::I(x) => {
            dt.is_signed_integer() && match dt {
                Dtype::Int8 => -128 <= x && x < 128,
                Dtype::Int16 => -32768 <= x && x < 32768,
                Dtype::Int32 => -0x8000_0000 <= x && x < 0x8000_0000,
                _ => true,
            }
        },
        Slot::U(x) => {
            (matches!(dt, Dtype::UInt8 | Dtype::UInt16 | Dtype::UInt32 | Dtype::UInt64)
                || dt.is_float()) && match dt {
                Dtype::UInt8 => x < 256,
                Dtype::UInt16 => x < 65536,
                Dtype::UInt32 => x < 0x1_0000_0000,
                Dtype::Float32 => x < 0x1_0000_0000,
                _ => true,
            }
        },
    }
}

impl DataArray {
    /// Well-formedness: a numeric dtype, one validity flag per value, and
    /// every slot a fitting carrier for the dtype.
    pub open spec fn wf(self) -> bool {
        &&& self.dtype.spec_is_numeric()
        &&& self.values@.len() == self.validity@.len()
        &&& forall|i: int|
            0 <= i < self.values@.len() ==> slot_fits(self.dtype, #[trigger] self.values@[i])
    }

    /// Builds a column, rejecting a non-numeric dtype (`TypeError`), a
    /// mask whose length differs from the values' (`ShapeMismatch`), and a
    /// slot that does not fit the dtype (`TypeError`).
    pub fn new(dtype: Dtype, values: Vec<Slot>, validity: Vec<bool>) -> (r: Result<
        DataArray,
        Error,
    >)
        ensures
            ({
                let ok = dtype.spec_is_numeric() && values@.len() == validity@.len() && (forall|
                    i: int,
                |
                    0 <= i < values@.len() ==> slot_fits(dtype, #[trigger] values@[i]));
                match r {
                    Ok(out) => ok && out.wf() && out@.dtype == dtype && out@.values == values@.map(
                        |i: int, v: Slot| slot_int(v),
                    ) && out@.validity == validity@,
                    Err(_) => !ok,
                }
            }),
    {
        if !dtype.is_numeric() {
            let mut dtypes: Vec<Dtype> = Vec::new();
            dtypes.push(dtype);
            return Err(Error::TypeError(dtypes));
        }
        if values.len() != validity.len() {
            return Err(Error::ShapeMismatch { lhs_len: values.len(), rhs_len: validity.len() });
        }
        let n = values.len();
        let mut i: usize = 0;
        while i < n
            invariant
                n == values@.len(),
                i <= n,
                forall|j: int| 0 <= j < i ==> slot_fits(dtype, #[trigger] values@[j]),
            decreases n - i,
        {
            if !slot_fits_exec(dtype, values[i]) {
                let mut dtypes: Vec<Dtype> = Vec::new();
                dtypes.push(dtype);
                return Err(Error::TypeError(dtypes));
            }
            i = i + 1;
        }
        Ok(DataArray { dtype, values, validity })
    }

    /// The column's dtype.
    pub fn dtype(&self) -> (r: Dtype)
        ensures
            r == self@.dtype,
    {
        self.dtype
    }

    /// The number of slots.
    pub fn len(&self) -> (r: usize)
        ensures
            r == self@.values.len(),
    {
        self.values.len()
    }

    /// The slot at `i`.
    pub fn get(&self, i: usize) -> (r: Slot)
        requires
            i < self@.values.len(),
        ensures
            slot_int(r) == self@.values[i as int],
    {
        self.values[i]
    }

    /// The validity flag at `i`.
    pub fn is_valid(&self, i: usize) -> (r: bool)
        requires
            i < self@.validity.len(),
        ensures
            r == self@.validity[i as int],
    {
        self.validity[i]
    }

    /// Element-wise minimum with another column of the same dtype.
    /// Fails with `ShapeMismatch` exactly when the lengths differ; the
    /// result has the common dtype, a slot is valid exactly when both input
    /// slots are, and every result value is the dtype's `min` of the two
    /// input values.
    pub fn min(&self, rhs: &DataArray) -> (r: Result<DataArray, Error>)
        requires
            self.wf(),
            rhs.wf(),
            self@.dtype == rhs@.dtype,
        ensures
            match r {
                Ok(out) => {
                    &&& self@.values.len() == rhs@.values.len()
                    &&& out.wf()
                    &&& out@.dtype == self@.dtype
                    &&& out@.values.len() == self@.values.len()
                    &&& forall|i: int|
                        0 <= i < self@.values.len() ==> #[trigger] out@.values[i] == min_slot(
                            self@.dtype,
                            self@.values[i],
                            rhs@.values[i],
                        )
                    &&& forall|i: int|
                        0 <= i < self@.values.len() ==> #[trigger] out@.validity[i] == (
                        self@.validity[i] && rhs@.validity[i])
                },
                Err(e) => {
                    &&& self@.values.len() != rhs@.values.len()
                    &&& e == Error::ShapeMismatch {
                        lhs_len: self@.values.len() as usize,
                        rhs_len: rhs@.values.len() as usize,
                    }
                },
            },
    {
        self.select(rhs, false)
    }

    /// Element-wise maximum with another column of the same dtype; the
    /// shape of the contract mirrors `min`.
    pub fn max(&self, rhs: &DataArray) -> (r: Result<DataArray, Error>)
        requires
            self.wf(),
            rhs.wf(),
            self@.dtype == rhs@.dtype,
        ensures
            match r {
                Ok(out) => {
                    &&& self@.values.len() == rhs@.values.len()
                    &&& out.wf()
                    &&& out@.dtype == self@.dtype
                    &&& out@.values.len() == self@.values.len()
                    &&& forall|i: int|
                        0 <= i < self@.values.len() ==> #[trigger] out@.values[i] == max_slot(
                            self@.dtype,
                            self@.values[i],
                            rhs@.values[i],
                        )
                    &&& forall|i: int|
                        0 <= i < self@.values.len() ==> #[trigger] out@.validity[i] == (
                        self@.validity[i] && rhs@.validity[i])
                },
                Err(e) => {
                    &&& self@.values.len() != rhs@.values.len()
                    &&& e == Error::ShapeMismatch {
                        lhs_len: self@.values.len() as usize,
                        rhs_len: rhs@.values.len() as usize,
                    }
                },
            },
    {
        self.select(rhs, true)
    }

    /// Shared body of `min` and `max`.
    fn select(&self, rhs: &DataArray, take_max: bool) -> (r: Result<DataArray, Error>)
        requires
            self.wf(),
            rhs.wf(),
            self@.dtype == rhs@.dtype,
        ensures
            match r {
                Ok(out) => {
                    &&& self@.values.len() == rhs@.values.len()
                    &&& out.wf()
                    &&& out@.dtype == self@.dtype
                    &&& out@.values.len() == self@.values.len()
                    &&& forall|i: int|
                        0 <= i < self@.values.len() ==> #[trigger] out@.values[i] == (if take_max {
                            max_slot(self@.dtype, self@.values[i], rhs@.values[i])
                        } else {
                            min_slot(self@.dtype, self@.values[i], rhs@.values[i])
                        })
                    &&& forall|i: int|
                        0 <= i < self@.values.len() ==> #[trigger] out@.validity[i] == (
                        self@.validity[i] && rhs@.validity[i])
                },
                Err(e) => {
                    &&& self@.values.len() != rhs@.values.len()
                    &&& e == Error::ShapeMismatch {
                        lhs_len: self@.values.len() as usize,
                        rhs_len: rhs@.values.len() as usize,
                    }
                },
            },
    {
        if self.values.len() != rhs.values.len() {
            return Err(
                Error::ShapeMismatch { lhs_len: self.values.len(), rhs_len: rhs.values.len() },
            );
        }
        let n = self.values.len();
        let mut values: Vec<Slot> = Vec::new();
        let mut validity: Vec<bool> = Vec::new();
        let mut i: usize = 0;
        while i < n
            invariant
                self.wf(),
                rhs.wf(),
                self@.dtype == rhs@.dtype,
                n == self@.values.len(),
                n == rhs@.values.len(),
                i <= n,
                values@.len() == i,
                validity@.len() == i,
                forall|j: int|
                    0 <= j < i ==> slot_int(#[trigger] values@[j]) == (if take_max {
                        max_slot(self@.dtype, self@.values[j], rhs@.values[j])
                    } else {
                        min_slot(self@.dtype, self@.values[j], rhs@.values[j])
                    }),
                forall|j: int| 0 <= j < i ==> slot_fits(self@.dtype, #[trigger] values@[j]),
                forall|j: int|
                    0 <= j < i ==> #[trigger] validity@[j] == (self@.validity[j]
                        && rhs@.validity[j]),
            decreases n - i,
        {
            let picked = select_slot(self.dtype, self.values[i], rhs.values[i], take_max);
            values.push(picked);
            validity.push(self.validity[i] && rhs.validity[i]);
            i = i + 1;
        }
        Ok(DataArray { dtype: self.dtype, values, validity })
    }
}

/// The casts this core supports: the identity, checked integer-to-integer
/// casts, integer-to-float encoding, and the exact widening of binary32 to
/// binary64. These cover every cast the promotion lattice prescribes; no
/// float is ever cast back to an integer or narrowed.
pub open spec fn cast_ok(from: Dtype, to: Dtype) -> bool {
    from.spec_is_numeric() && to.spec_is_numeric() && (from == to || (from.spec_is_integer()
        && to.spec_is_integer()) || (from.spec_is_integer() && to.spec_is_float()) || (from
        == Dtype::Float32 && to == Dtype::Float64))
}

/// Value-level behaviour of a supported cast: the identity keeps the value,
/// an integer target keeps a value in range and drops (`None`, a null) one
/// out of range, a float target holds the round-to-nearest-even encoding of
/// an integer value, and binary64 holds a binary32 value exactly.
pub open spec fn cast_slot(from: Dtype, to: Dtype, v: int) -> Option<int> {
    if from == to {
        Some(v)
    } else if to.spec_is_integer() {
        if in_range(to, v) {
            Some(v)
        } else {
            None
        }
    } else if to == Dtype::Float32 {
        Some(f32_bits_of_int(v))
    } else if from == Dtype::Float32 {
        Some(widen32(v as u32))
    } else {
        Some(f64_bits_of_int(v))
    }
}

/// Executable range check of a slot's value against an integer dtype.
fn slot_in_range(to: Dtype, v: Slot) -> (r: bool)
    requires
        to.spec_is_integer(),
    ensures
        r == in_range(to, slot_int(v)),
{
    match v {
        Slot::I(x) => match to {
            Dtype::Int8 => -128 <= x && x < 128,
            Dtype::Int16 => -32768 <= x && x < 32768,
            Dtype::Int32 => -0x8000_0000 <= x && x < 0x8000_0000,
            Dtype::Int64 => true,
            Dtype::UInt8 => 0 <= x && x < 256,
            Dtype::UInt16 => 0 <= x && x < 65536,
            Dtype::UInt32 => 0 <= x && x < 0x1_0000_0000,
            _ => 0 <= x,
        },
        Slot::U(x) => match to {
            Dtype::Int8 => x < 128,
            Dtype::Int16 => x < 32768,
            Dtype::Int32 => x < 0x8000_0000,
            Dtype::Int64 => x < 0x8000_0000_0000_0000,
            Dtype::UInt8 => x < 256,
            Dtype::UInt16 => x < 65536,
            Dtype::UInt32 => x < 0x1_0000_0000,
            _ => true,
        },
    }
}

/// Casts one slot; `None` is a slot that the checked cast nulls out.
fn cast_slot_exec(from: Dtype, to: Dtype, v: Slot) -> (r: Option<Slot>)
    requires
        slot_fits(from, v),
        cast_ok(from, to),
    ensures
        match r {
            Some(w) => cast_slot(from, to, slot_int(v)) == Some(slot_int(w)) && slot_fits(to, w),
            None => cast_slot(from, to, slot_int(v)) is None,
        },
{
    if from == to {
        return Some(v);
    }
    if to.is_integer() {
        if !slot_in_range(to, v) {
            return None;
        }
        if to.is_signed_integer() {
            match v {
                Slot::I(x) => Some(Slot::I(x)),
                Slot::U(x) => Some(Slot::I(x as i64)),
            }
        } else {
            match v {
                Slot::I(x) => Some(Slot::U(x as u64)),
                Slot::U(x) => Some(Slot::U(x)),
            }
        }
    } else if to == Dtype::Float32 {
        match v {
            Slot::I(x) => Some(Slot::U(f32_from_i64(x) as u64)),
            Slot::U(x) => Some(Slot::U(f32_from_u64(x) as u64)),
        }
    } else if from == Dtype::Float32 {
        match v {
            Slot::U(x) => Some(Slot::U(widen32_to64(x as u32))),
            Slot::I(_) => {
                proof {
                    assert(false);
                }
                None
            },
        }
    } else {
        match v {
            Slot::I(x) => Some(Slot::U(f64_from_i64(x))),
            Slot::U(x) => Some(Slot::U(f64_from_u64(x))),
        }
    }
}

impl DataArray {
    /// Casts the column to dtype `to`. Supported casts keep the validity
    /// mask except that a checked integer cast nulls an out-of-range slot
    /// (such a slot's native value is 0); an unsupported cast pair fails
    /// with a `TypeError` carrying both dtypes.
    pub fn cast(&self, to: Dtype) -> (r: Result<DataArray, Error>)
        requires
            self.wf(),
        ensures
            match r {
                Ok(out) => {
                    &&& cast_ok(self@.dtype, to)
                    &&& out.wf()
                    &&& out@.dtype == to
                    &&& out@.values.len() == self@.values.len()
                    &&& forall|i: int|
                        0 <= i < self@.values.len() ==> match cast_slot(
                            self@.dtype,
                            to,
                            #[trigger] self@.values[i],
                        ) {
                            Some(w) => out@.values[i] == w && out@.validity[i]
                                == self@.validity[i],
                            None => out@.values[i] == 0 && out@.validity[i] == false,
                        }
                },
                Err(e) => {
                    &&& !cast_ok(self@.dtype, to)
                    &&& e@ == crate::error::ErrorV::TypeError(seq![self@.dtype, to])
                },
            },
    {
        let supported = self.dtype == to || (self.dtype.is_integer() && to.is_integer()) || (
        self.dtype.is_integer() && to.is_float()) || (self.dtype == Dtype::Float32 && to
            == Dtype::Float64);
        if !supported {
            let mut dtypes: Vec<Dtype> = Vec::new();
            dtypes.push(self.dtype);
            dtypes.push(to);
            proof {
                assert(dtypes@ =~= seq![self@.dtype, to]);
            }
            return Err(Error::TypeError(dtypes));
        }
        let n = self.values.len();
        let mut values: Vec<Slot> = Vec::new();
        let mut validity: Vec<bool> = Vec::new();
        let mut i: usize = 0;
        while i < n
            invariant
                self.wf(),
                cast_ok(self@.dtype, to),
                n == self@.values.len(),
                i <= n,
                values@.len() == i,
                validity@.len() == i,
                forall|j: int| 0 <= j < i ==> slot_fits(to, #[trigger] values@[j]),
                forall|j: int|
                    0 <= j < i ==> match cast_slot(self@.dtype, to, #[trigger] self@.values[j]) {
                        Some(w) => slot_int(values@[j]) == w && validity@[j] == self@.validity[j],
                        None => slot_int(values@[j]) == 0 && validity@[j] == false,
                    },
            decreases n - i,
        {
            match cast_slot_exec(self.dtype, to, self.values[i]) {
                Some(w) => {
                    values.push(w);
                    validity.push(self.validity[i]);
                },
                None => {
                    if to.is_signed_integer() {
                        values.push(Slot::I(0));
                    } else {
                        values.push(Slot::U(0));
                    }
                    validity.push(false);
                },
            }
            i = i + 1;
        }
        Ok(DataArray { dtype: to, values, validity })
    }
}

/// Picks the element-wise minimum or maximum of two fitting slots.
fn select_slot(dt: Dtype, a: Slot, b: Slot, take_max: bool) -> (r: Slot)
    requires
        dt.spec_is_numeric(),
        slot_fits(dt, a),
        slot_fits(dt, b),
    ensures
        slot_int(r) == (if take_max {
            max_slot(dt, slot_int(a), slot_int(b))
        } else {
            min_slot(dt, slot_int(a), slot_int(b))
        }),
        slot_fits(dt, r),
{
    match (a, b) {
        (Slot::I(x), Slot::I(y)) => {
            if take_max {
                if x >= y {
                    a
                } else {
                    b
                }
            } else {
                if x <= y {
                    a
                } else {
                    b
                }
            }
        },
        (Slot::U(x), Slot::U(y)) => {
            if dt == Dtype::Float32 {
                let picked = if take_max {
                    crate::fbits::max32(x as u32, y as u32)
                } else {
                    crate::fbits::min32(x as u32, y as u32)
                };
                Slot::U(picked as u64)
            } else if dt == Dtype::Float64 {
                let picked = if take_max {
                    crate::fbits::max64(x, y)
                } else {
                    crate::fbits::min64(x, y)
                };
                Slot::U(picked)
            } else {
                if take_max {
                    if x >= y {
                        a
                    } else {
                        b
                    }
                } else {
                    if x <= y {
                        a
                    } else {
                        b
                    }
                }
            }
        },
        _ => {
            proof {
                assert(false);
            }
            a
        },
    }
}

} // verus!
