//! Fields, schemas and the expression shapes the planner consumes: column
//! references, aliases, the registered scalar functions, and aggregate
//! wrappers.
//!
//! Every expression has a deterministic structural identifier
//! (`semantic_id`) used as a stable intermediate column name across shuffle
//! boundaries: the identifier of an aggregation is a pure function of its
//! structure, never of object identity, so the two sides of a shuffle agree
//! on it.

use vstd::prelude::*;

use crate::dtype::{promote, Dtype};
use crate::error::{Error, ErrorV, SchemaIssue, SchemaIssueV};
use vstd::string::StringExecFns;

verus! {

broadcast use vstd::std_specs::vec::group_vec_axioms, vstd::seq::group_seq_axioms;

/// Ghost mirror of a `Field`.
#[verifier::ext_equal]
pub struct FieldV {
    pub name: Seq<char>,
    pub dtype: Dtype,
}

/// A named, typed column slot of a schema.
#[derive(Debug)]
pub struct Field {
    pub name: String,
    pub dtype: Dtype,
}

impl View for Field {
    type V = FieldV;

    open spec fn view(&self) -> FieldV {
        FieldV { name: self.name@, dtype: self.dtype }
    }
}

impl Field {
    /// Builds a field.
    pub fn new(name: String, dtype: Dtype) -> (r: Field)
        ensures
            r@ == (FieldV { name: name@, dtype }),
    {
        Field { name, dtype }
    }

    /// A copy of this field.
    pub fn duplicate(&self) -> (r: Field)
        ensures
            r@ == self@,
    {
        Field { name: self.name.clone(), dtype: self.dtype }
    }
}

/// Ghost mirror of a `Schema`.
#[verifier::ext_equal]
pub struct SchemaV {
    pub fields: Seq<FieldV>,
}

impl SchemaV {
    /// The first field of the given name, scanned left to right.
    pub open spec fn lookup(self, name: Seq<char>) -> Option<FieldV>
        decreases self.fields.len(),
    {
        if self.fields.len() == 0 {
            None
        } else if self.fields[0].name == name {
            Some(self.fields[0])
        } else {
            (SchemaV { fields: self.fields.drop_first() }).lookup(name)
        }
    }

    /// The field names in order.
    pub open spec fn names(self) -> Seq<Seq<char>> {
        self.fields.map(|i: int, f: FieldV| f.name)
    }
}

/// An ordered sequence of fields with unique names.
#[derive(Debug)]
pub struct Schema {
    pub fields: Vec<Field>,
}

impl View for Schema {
    type V = SchemaV;

    open spec fn view(&self) -> SchemaV {
        SchemaV { fields: self.fields@.map(|i: int, f: Field| f@) }
    }
}

impl Schema {
    /// Name uniqueness: no two fields share a name.
    pub open spec fn wf(self) -> bool {
        forall|i: int, j: int|
            0 <= i < j < self@.fields.len() ==> self@.fields[i].name != self@.fields[j].name
    }

    /// Builds a schema from fields.
    pub fn new(fields: Vec<Field>) -> (r: Schema)
        ensures
            r@.fields == fields@.map(|i: int, f: Field| f@),
    {
        Schema { fields }
    }

    /// The number of fields.
    pub fn len(&self) -> (r: usize)
        ensures
            r == self@.fields.len(),
    {
        self.fields.len()
    }

    /// The first field of the given name, if any.
    pub fn find(&self, name: &String) -> (r: Option<&Field>)
        ensures
            match r {
                Some(f) => self@.lookup(name@) == Some(f@),
                None => self@.lookup(name@) is None,
            },
    {
        let n = self.fields.len();
        let mut i: usize = 0;
        proof {
            assert(self@.fields.skip(0) =~= self@.fields);
        }
        while i < n
            invariant
                n == self.fields@.len(),
                i <= n,
                self@.lookup(name@) == (SchemaV {
                    fields: self@.fields.skip(i as int),
                }).lookup(name@),
            decreases n - i,
        {
            proof {
                assert(self@.fields.skip(i as int).drop_first() =~= self@.fields.skip(i as int + 1));
                assert(self@.fields.skip(i as int)[0] == self@.fields[i as int]);
            }
            if self.fields[i].name == *name {
                return Some(&self.fields[i]);
            }
            i = i + 1;
        }
        proof {
            assert(self@.fields.skip(n as int) =~= Seq::<FieldV>::empty());
        }
        None
    }

    /// The field names in order.
    pub fn names(&self) -> (r: Vec<String>)
        ensures
            r@.map(|i: int, s: String| s@) == self@.names(),
    {
        let n = self.fields.len();
        let mut out: Vec<String> = Vec::new();
        let mut i: usize = 0;
        while i < n
            invariant
                n == self.fields@.len(),
                i <= n,
                out@.len() == i,
                forall|j: int| 0 <= j < i ==> #[trigger] out@[j]@ == self@.fields[j].name,
            decreases n - i,
        {
            out.push(self.fields[i].name.clone());
            i = i + 1;
        }
        proof {
            assert(out@.map(|i: int, s: String| s@) =~= self@.names());
        }
        out
    }
}

/// The registered scalar functions.
#[derive(Debug, Clone, Copy, PartialEq, Eq, Structural)]
pub enum ScalarFnOp {
    BinaryMin,
    BinaryMax,
    Clip,
}

/// Ghost mirror of an `Expr`.
pub enum ExprV {
    Column(Seq<char>),
    Alias(Box<ExprV>, Seq<char>),
    ScalarFn { op: ScalarFnOp, inputs: Seq<ExprV> },
}

/// An expression tree: column references, aliases, and applications of the
/// registered scalar functions.
#[derive(Debug)]
pub enum Expr {
    Column(String),
    Alias(Box<Expr>, String),
    ScalarFn { op: ScalarFnOp, inputs: Vec<Expr> },
}

/// Recursive view of an expression.
pub open spec fn expr_view(e: Expr) -> ExprV
    decreases e,
    via expr_view_decreases
{
    match e {
        Expr::Column(name) => ExprV::Column(name@),
        Expr::Alias(inner, name) => ExprV::Alias(Box::new(expr_view(*inner)), name@),
        Expr::ScalarFn { op, inputs } => ExprV::ScalarFn { op, inputs: exprs_view(inputs@) },
    }
}

/// Views of a sequence of expressions, element by element.
pub open spec fn exprs_view(es: Seq<Expr>) -> Seq<ExprV>
    decreases es,
    via exprs_view_decreases
{
    if es.len() == 0 {
        Seq::empty()
    } else {
        exprs_view(es.drop_last()).push(expr_view(es.last()))
    }
}

#[via_fn]
proof fn expr_view_decreases(e: Expr) {
    match e {
        Expr::ScalarFn { op, inputs } => {
            vstd::std_specs::vec::axiom_vec_decreases_to_view(inputs);
        },
        _ => {},
    }
}

#[via_fn]
proof fn exprs_view_decreases(es: Seq<Expr>) {
    if es.len() > 0 {
        vstd::seq::axiom_seq_index_decreases(es, es.len() - 1);
        vstd::seq::axiom_seq_subrange_decreases(es, 0, es.len() - 1);
    }
}

/// `exprs_view` is the element-wise view.
pub proof fn lemma_exprs_view(es: Seq<Expr>)
    ensures
        exprs_view(es).len() == es.len(),
        forall|i: int| 0 <= i < es.len() ==> #[trigger] exprs_view(es)[i] == expr_view(es[i]),
    decreases es.len(),
{
    if es.len() > 0 {
        lemma_exprs_view(es.drop_last());
    }
}

impl View for Expr {
    type V = ExprV;

    open spec fn view(&self) -> ExprV {
        expr_view(*self)
    }
}

/// A deterministic structural identifier of an expression, used as a
/// stable intermediate column name across shuffle boundaries.
#[derive(Debug)]
pub struct FieldID {
    pub id: String,
}

impl View for FieldID {
    type V = Seq<char>;

    open spec fn view(&self) -> Seq<char> {
        self.id@
    }
}

/// The stable name of a registered scalar function.
pub open spec fn scalar_fn_name(op: ScalarFnOp) -> Seq<char> {
    match op {
        ScalarFnOp::BinaryMin => "binary_min"@,
        ScalarFnOp::BinaryMax => "binary_max"@,
        ScalarFnOp::Clip => "clip"@,
    }
}

/// Structural identifier of an expression: column references spell their
/// name, aliases are transparent (the identifier names the computation,
/// not its label), and function applications spell the function over their
/// inputs' identifiers.
pub open spec fn expr_sid(e: ExprV) -> Seq<char>
    decreases e,
    via expr_sid_decreases
{
    match e {
        ExprV::Column(name) => "col("@ + name + ")"@,
        ExprV::Alias(inner, _) => expr_sid(*inner),
        ExprV::ScalarFn { op, inputs } => scalar_fn_name(op) + "("@ + sids_join(inputs) + ")"@,
    }
}

/// Comma-joined identifiers of a sequence of expressions.
pub open spec fn sids_join(es: Seq<ExprV>) -> Seq<char>
    decreases es,
    via sids_join_decreases
{
    if es.len() == 0 {
        Seq::empty()
    } else if es.len() == 1 {
        expr_sid(es[0])
    } else {
        sids_join(es.drop_last()) + ","@ + expr_sid(es.last())
    }
}

#[via_fn]
proof fn expr_sid_decreases(e: ExprV) {
    match e {
        ExprV::ScalarFn { op, inputs } => {
            assert(decreases_to!(e => e->inputs));
        },
        _ => {},
    }
}

#[via_fn]
proof fn sids_join_decreases(es: Seq<ExprV>) {
    if es.len() > 0 {
        vstd::seq::axiom_seq_index_decreases(es, 0);
        vstd::seq::axiom_seq_index_decreases(es, es.len() - 1);
        vstd::seq::axiom_seq_subrange_decreases(es, 0, es.len() - 1);
    }
}

/// Output dtype of an aggregation over a column of dtype `d`: `Count`
/// yields a count (`UInt64`), `Mean` a `Float64`, every other aggregation
/// keeps its input dtype.
pub open spec fn agg_result_dtype(op: AggOp, d: Dtype) -> Dtype {
    match op {
        AggOp::Count => Dtype::UInt64,
        AggOp::Mean => Dtype::Float64,
        _ => d,
    }
}

/// The aggregation kinds.
#[derive(Debug, Clone, Copy, PartialEq, Eq, Structural)]
pub enum AggOp {
    Count,
    Sum,
    Mean,
    Min,
    Max,
    List,
    Concat,
}

/// The stable name of an aggregation kind.
pub open spec fn agg_op_name(op: AggOp) -> Seq<char> {
    match op {
        AggOp::Count => "count"@,
        AggOp::Sum => "sum"@,
        AggOp::Mean => "mean"@,
        AggOp::Min => "min"@,
        AggOp::Max => "max"@,
        AggOp::List => "list"@,
        AggOp::Concat => "concat"@,
    }
}

/// Ghost mirror of an `AggExpr`.
#[verifier::ext_equal]
pub struct AggExprV {
    pub op: AggOp,
    pub child: ExprV,
}

/// An aggregate wrapper over a sub-expression.
#[derive(Debug)]
pub struct AggExpr {
    pub op: AggOp,
    pub child: Expr,
}

impl View for AggExpr {
    type V = AggExprV;

    open spec fn view(&self) -> AggExprV {
        AggExprV { op: self.op, child: self.child@ }
    }
}

/// Structural identifier of an aggregation.
pub open spec fn agg_sid(a: AggExprV) -> Seq<char> {
    expr_sid(a.child) + "."@ + agg_op_name(a.op) + "()"@
}

/// Field resolution of an expression against a schema: a column reference
/// resolves to its schema field (`SchemaMismatch` when absent), an alias
/// renames its inner field, and a scalar-function application follows the
/// registered function's rule.
pub open spec fn expr_field(e: ExprV, s: SchemaV) -> Result<FieldV, ErrorV>
    decreases e,
    via expr_field_decreases
{
    match e {
        ExprV::Column(name) => match s.lookup(name) {
            Some(f) => Ok(f),
            None => Err(ErrorV::SchemaMismatch(SchemaIssueV::MissingColumn { name })),
        },
        ExprV::Alias(inner, name) => match expr_field(*inner, s) {
            Ok(f) => Ok(FieldV { name, dtype: f.dtype }),
            Err(e) => Err(e),
        },
        ExprV::ScalarFn { op, inputs } => scalar_fn_field(op, inputs, s),
    }
}

/// Field rule of a registered scalar function: fixed arity
/// (`SchemaMismatch` otherwise), numeric inputs (`TypeError` carrying the
/// offending dtypes otherwise), output dtype through the promotion lattice
/// (`clip` transitively), output name from the first input.
pub open spec fn scalar_fn_field(op: ScalarFnOp, inputs: Seq<ExprV>, s: SchemaV) -> Result<
    FieldV,
    ErrorV,
>
    decreases inputs,
    via scalar_fn_field_decreases
{
    let arity: int = if op == ScalarFnOp::Clip {
        3
    } else {
        2
    };
    if inputs.len() != arity {
        Err(
            ErrorV::SchemaMismatch(
                SchemaIssueV::Arity { expected: arity as usize, got: inputs.len() as usize },
            ),
        )
    } else {
        match expr_field(inputs[0], s) {
            Err(e) => Err(e),
            Ok(f0) => match expr_field(inputs[1], s) {
                Err(e) => Err(e),
                Ok(f1) => {
                    if op == ScalarFnOp::Clip {
                        match expr_field(inputs[2], s) {
                            Err(e) => Err(e),
                            Ok(f2) => {
                                if !f0.dtype.spec_is_numeric() || !f1.dtype.spec_is_numeric()
                                    || !f2.dtype.spec_is_numeric() {
                                    Err(ErrorV::TypeError(seq![f0.dtype, f1.dtype, f2.dtype]))
                                } else {
                                    Ok(
                                        FieldV {
                                            name: f0.name,
                                            dtype: promote(promote(f0.dtype, f1.dtype), f2.dtype),
                                        },
                                    )
                                }
                            },
                        }
                    } else {
                        if !f0.dtype.spec_is_numeric() || !f1.dtype.spec_is_numeric() {
                            Err(ErrorV::TypeError(seq![f0.dtype, f1.dtype]))
                        } else {
                            Ok(FieldV { name: f0.name, dtype: promote(f0.dtype, f1.dtype) })
                        }
                    }
                },
            },
        }
    }
}

#[via_fn]
proof fn expr_field_decreases(e: ExprV, s: SchemaV) {
    match e {
        ExprV::ScalarFn { op, inputs } => {
            assert(decreases_to!(e => e->inputs));
        },
        _ => {},
    }
}

#[via_fn]
proof fn scalar_fn_field_decreases(op: ScalarFnOp, inputs: Seq<ExprV>, s: SchemaV) {
    if inputs.len() >= 2 {
        vstd::seq::axiom_seq_index_decreases(inputs, 0);
        vstd::seq::axiom_seq_index_decreases(inputs, 1);
        if inputs.len() >= 3 {
            vstd::seq::axiom_seq_index_decreases(inputs, 2);
        }
    }
}

/// Field resolution of an aggregation: the child resolves first (errors
/// propagate), the output keeps the child's name at the aggregation's
/// result dtype.
pub open spec fn agg_field(a: AggExprV, s: SchemaV) -> Result<FieldV, ErrorV> {
    match expr_field(a.child, s) {
        Ok(f) => Ok(FieldV { name: f.name, dtype: agg_result_dtype(a.op, f.dtype) }),
        Err(e) => Err(e),
    }
}

/// Executable name of a registered scalar function.
pub fn scalar_fn_name_str(op: ScalarFnOp) -> (r: &'static str)
    ensures
        r@ == scalar_fn_name(op),
{
    match op {
        ScalarFnOp::BinaryMin => "binary_min",
        ScalarFnOp::BinaryMax => "binary_max",
        ScalarFnOp::Clip => "clip",
    }
}

impl Expr {
    /// The deterministic structural identifier of this expression; the
    /// schema takes no part in it, only the structure does.
    pub fn semantic_id(&self, schema: &Schema) -> (r: FieldID)
        ensures
            r@ == expr_sid(self@),
        decreases *self,
    {
        match self {
            Expr::Column(name) => {
                let mut s = String::from_str("col(");
                s.append(name.as_str());
                s.append(")");
                FieldID { id: s }
            },
            Expr::Alias(inner, _) => inner.semantic_id(schema),
            Expr::ScalarFn { op, inputs } => {
                let ghost vs = exprs_view(inputs@);
                proof {
                    lemma_exprs_view(inputs@);
                }
                let mut s = String::from_str(scalar_fn_name_str(*op));
                s.append("(");
                let n = inputs.len();
                let mut i: usize = 0;
                proof {
                    assert(vs.take(0) =~= Seq::<ExprV>::empty());
                }
                while i < n
                    invariant
                        *self == (Expr::ScalarFn { op: *op, inputs: *inputs }),
                        n == inputs@.len(),
                        i <= n,
                        vs == exprs_view(inputs@),
                        vs.len() == n,
                        forall|j: int| 0 <= j < n ==> #[trigger] vs[j] == expr_view(inputs@[j]),
                        s@ == scalar_fn_name(*op) + "("@ + sids_join(vs.take(i as int)),
                    decreases n - i,
                {
                    proof {
                        assert(decreases_to!(*self => (*self)->inputs));
                        assert((*self)->inputs == *inputs);
                        vstd::std_specs::vec::axiom_vec_decreases_to_view(*inputs);
                        vstd::seq::axiom_seq_index_decreases(inputs@, i as int);
                    }
                    if i > 0 {
                        s.append(",");
                    }
                    let part = inputs[i].semantic_id(schema);
                    s.append(part.id.as_str());
                    proof {
                        let prev = vs.take(i as int);
                        let cur = vs.take(i as int + 1);
                        assert(cur.drop_last() =~= prev);
                        assert(cur.last() == vs[i as int]);
                        if i == 0 {
                            assert(cur.len() == 1);
                            assert(cur[0] == vs[0]);
                        }
                    }
                    i = i + 1;
                }
                s.append(")");
                proof {
                    assert(vs.take(n as int) =~= vs);
                }
                FieldID { id: s }
            },
        }
    }

    /// Resolves this expression's output field against a schema.
    pub fn to_field(&self, schema: &Schema) -> (r: Result<Field, Error>)
        ensures
            match expr_field(self@, schema@) {
                Ok(fv) => r matches Ok(f) && f@ == fv,
                Err(ev) => r matches Err(e) && e@ == ev,
            },
        decreases *self,
    {
        match self {
            Expr::Column(name) => match schema.find(name) {
                Some(f) => Ok(f.duplicate()),
                None => Err(
                    Error::SchemaMismatch(SchemaIssue::MissingColumn { name: name.clone() }),
                ),
            },
            Expr::Alias(inner, name) => match inner.to_field(schema) {
                Ok(f) => Ok(Field { name: name.clone(), dtype: f.dtype }),
                Err(e) => Err(e),
            },
            Expr::ScalarFn { op, inputs } => {
                proof {
                    assert(decreases_to!(*self => (*self)->inputs));
                    assert((*self)->inputs == *inputs);
                    lemma_exprs_view(inputs@);
                }
                scalar_fn_to_field(*op, inputs, schema)
            },
        }
    }
}

/// Executable field rule of a registered scalar function, shared by the
/// expression resolver and the function registry.
pub fn scalar_fn_to_field(op: ScalarFnOp, inputs: &Vec<Expr>, schema: &Schema) -> (r: Result<
    Field,
    Error,
>)
    ensures
        match scalar_fn_field(op, exprs_view(inputs@), schema@) {
            Ok(fv) => r matches Ok(f) && f@ == fv,
            Err(ev) => r matches Err(e) && e@ == ev,
        },
    decreases *inputs,
{
    proof {
        lemma_exprs_view(inputs@);
    }
    let arity: usize = if op == ScalarFnOp::Clip {
        3
    } else {
        2
    };
    if inputs.len() != arity {
        return Err(Error::SchemaMismatch(SchemaIssue::Arity { expected: arity, got: inputs.len() }));
    }
    proof {
        vstd::std_specs::vec::axiom_vec_decreases_to_view(*inputs);
        vstd::seq::axiom_seq_index_decreases(inputs@, 0);
        vstd::seq::axiom_seq_index_decreases(inputs@, 1);
        if inputs@.len() >= 3 {
            vstd::seq::axiom_seq_index_decreases(inputs@, 2);
        }
    }
    let f0 = match inputs[0].to_field(schema) {
        Ok(f) => f,
        Err(e) => {
            return Err(e);
        },
    };
    let f1 = match inputs[1].to_field(schema) {
        Ok(f) => f,
        Err(e) => {
            return Err(e);
        },
    };
    if op == ScalarFnOp::Clip {
        let f2 = match inputs[2].to_field(schema) {
            Ok(f) => f,
            Err(e) => {
                return Err(e);
            },
        };
        if !f0.dtype.is_numeric() || !f1.dtype.is_numeric() || !f2.dtype.is_numeric() {
            let mut dtypes: Vec<Dtype> = Vec::new();
            dtypes.push(f0.dtype);
            dtypes.push(f1.dtype);
            dtypes.push(f2.dtype);
            proof {
                assert(dtypes@ =~= seq![f0@.dtype, f1@.dtype, f2@.dtype]);
            }
            return Err(Error::TypeError(dtypes));
        }
        let inter = match f0.dtype.comparison_op(&f1.dtype) {
            Ok((_, _, dt)) => dt,
            Err(_) => {
                proof {
                    assert(false);
                }
                return Err(Error::Internal);
            },
        };
        let out = match inter.comparison_op(&f2.dtype) {
            Ok((_, _, dt)) => dt,
            Err(_) => {
                proof {
                    crate::dtype::lemma_lattice_total(f0@.dtype, f1@.dtype);
                    assert(false);
                }
                return Err(Error::Internal);
            },
        };
        Ok(Field { name: f0.name, dtype: out })
    } else {
        if !f0.dtype.is_numeric() || !f1.dtype.is_numeric() {
            let mut dtypes: Vec<Dtype> = Vec::new();
            dtypes.push(f0.dtype);
            dtypes.push(f1.dtype);
            proof {
                assert(dtypes@ =~= seq![f0@.dtype, f1@.dtype]);
            }
            return Err(Error::TypeError(dtypes));
        }
        let out = match f0.dtype.comparison_op(&f1.dtype) {
            Ok((_, _, dt)) => dt,
            Err(_) => {
                proof {
                    assert(false);
                }
                return Err(Error::Internal);
            },
        };
        Ok(Field { name: f0.name, dtype: out })
    }
}

impl AggExpr {
    /// A structurally equal copy.
    pub fn duplicate(&self) -> (r: AggExpr)
        ensures
            r@ == self@,
    {
        AggExpr { op: self.op, child: self.child.duplicate() }
    }

    /// The deterministic structural identifier of this aggregation.
    pub fn semantic_id(&self, schema: &Schema) -> (r: FieldID)
        ensures
            r@ == agg_sid(self@),
    {
        let mut s = self.child.semantic_id(schema).id;
        s.append(".");
        s.append(agg_op_name_str(self.op));
        s.append("()");
        FieldID { id: s }
    }

    /// Resolves this aggregation's output field against a schema.
    pub fn to_field(&self, schema: &Schema) -> (r: Result<Field, Error>)
        ensures
            match agg_field(self@, schema@) {
                Ok(fv) => r matches Ok(f) && f@ == fv,
                Err(ev) => r matches Err(e) && e@ == ev,
            },
    {
        match self.child.to_field(schema) {
            Ok(f) => {
                let dt = match self.op {
                    AggOp::Count => Dtype::UInt64,
                    AggOp::Mean => Dtype::Float64,
                    _ => f.dtype,
                };
                Ok(Field { name: f.name, dtype: dt })
            },
            Err(e) => Err(e),
        }
    }
}

/// Element-wise copy of a vector of expressions.
pub fn duplicate_exprs(es: &Vec<Expr>) -> (r: Vec<Expr>)
    ensures
        r@.len() == es@.len(),
        exprs_view(r@) == exprs_view(es@),
        forall|j: int| 0 <= j < es@.len() ==> #[trigger] expr_view(r@[j]) == expr_view(es@[j]),
{
    let n = es.len();
    let mut out: Vec<Expr> = Vec::new();
    let mut i: usize = 0;
    while i < n
        invariant
            n == es@.len(),
            i <= n,
            out@.len() == i,
            forall|j: int| 0 <= j < i ==> #[trigger] expr_view(out@[j]) == expr_view(es@[j]),
        decreases n - i,
    {
        out.push(es[i].duplicate());
        i = i + 1;
    }
    proof {
        lemma_exprs_view(out@);
        lemma_exprs_view(es@);
        assert(exprs_view(out@) =~= exprs_view(es@));
    }
    out
}

/// Views of a sequence of aggregations, element by element.
pub open spec fn aggs_view(aggs: Seq<AggExpr>) -> Seq<AggExprV> {
    aggs.map(|i: int, a: AggExpr| a@)
}

/// Element-wise copy of a vector of aggregations.
pub fn duplicate_aggs(aggs: &Vec<AggExpr>) -> (r: Vec<AggExpr>)
    ensures
        r@.len() == aggs@.len(),
        aggs_view(r@) == aggs_view(aggs@),
        forall|j: int| 0 <= j < aggs@.len() ==> #[trigger] r@[j]@ == aggs@[j]@,
{
    let n = aggs.len();
    let mut out: Vec<AggExpr> = Vec::new();
    let mut i: usize = 0;
    while i < n
        invariant
            n == aggs@.len(),
            i <= n,
            out@.len() == i,
            forall|j: int| 0 <= j < i ==> #[trigger] out@[j]@ == aggs@[j]@,
        decreases n - i,
    {
        out.push(aggs[i].duplicate());
        i = i + 1;
    }
    proof {
        assert(aggs_view(out@) =~= aggs_view(aggs@));
    }
    out
}

impl Schema {
    /// A field-wise copy of this schema.
    pub fn duplicate(&self) -> (r: Schema)
        ensures
            r@ == self@,
    {
        let n = self.fields.len();
        let mut out: Vec<Field> = Vec::new();
        let mut i: usize = 0;
        while i < n
            invariant
                n == self.fields@.len(),
                i <= n,
                out@.len() == i,
                forall|j: int| 0 <= j < i ==> #[trigger] out@[j]@ == self.fields@[j]@,
            decreases n - i,
        {
            out.push(self.fields[i].duplicate());
            i = i + 1;
        }
        let r = Schema { fields: out };
        proof {
            assert(r@.fields =~= self@.fields);
            assert(r@ =~= self@);
        }
        r
    }
}

/// Executable name of an aggregation kind.
pub fn agg_op_name_str(op: AggOp) -> (r: &'static str)
    ensures
        r@ == agg_op_name(op),
{
    match op {
        AggOp::Count => "count",
        AggOp::Sum => "sum",
        AggOp::Mean => "mean",
        AggOp::Min => "min",
        AggOp::Max => "max",
        AggOp::List => "list",
        AggOp::Concat => "concat",
    }
}

impl Expr {
    /// A structurally equal copy.
    pub fn duplicate(&self) -> (r: Expr)
        ensures
            r@ == self@,
        decreases *self,
    {
        match self {
            Expr::Column(name) => Expr::Column(name.clone()),
            Expr::Alias(inner, name) => Expr::Alias(Box::new(inner.duplicate()), name.clone()),
            Expr::ScalarFn { op, inputs } => {
                let n = inputs.len();
                let mut copied: Vec<Expr> = Vec::new();
                let mut i: usize = 0;
                while i < n
                    invariant
                        *self == (Expr::ScalarFn { op: *op, inputs: *inputs }),
                        n == inputs@.len(),
                        i <= n,
                        copied@.len() == i,
                        forall|j: int|
                            0 <= j < i ==> #[trigger] expr_view(copied@[j]) == expr_view(
                                inputs@[j],
                            ),
                    decreases n - i,
                {
                    proof {
                        vstd::std_specs::vec::axiom_vec_decreases_to_view(*inputs);
                        vstd::seq::axiom_seq_index_decreases(inputs@, i as int);
                        assert(decreases_to!(*self => (*self)->inputs));
                        assert((*self)->inputs == *inputs);
                        assert(decreases_to!(*self => inputs@[i as int]));
                    }
                    copied.push(inputs[i].duplicate());
                    i = i + 1;
                }
                let r = Expr::ScalarFn { op: *op, inputs: copied };
                proof {
                    lemma_exprs_view(copied@);
                    lemma_exprs_view(inputs@);
                    assert forall|j: int| 0 <= j < n implies exprs_view(copied@)[j] == exprs_view(
                        inputs@,
                    )[j] by {}
                    assert(exprs_view(copied@) =~= exprs_view(inputs@));
                }
                r
            },
        }
    }
}

} // verus!
