//! Lowering of logical expressions into compiled expressions, and
//! evaluation of compiled expressions on record batches.
use crate::kernels::{apply_kernel, apply_spec, Kernel};
use crate::types::{
    ArrayRef, ArrayView, DataType, ErrorKind, ExecutionContext, ExecutionError, Expr, Operator,
    RecordBatch, Schema,
};
use std::rc::Rc;
use std::sync::Arc;
use vstd::prelude::*;

verus! {

/// Kind of an aggregate function.
#[derive(Clone, Copy, Debug, PartialEq, Eq, Structural)]
pub enum AggregateType {
    Min,
    Max,
    Sum,
    Count,
    Avg,
}

/// A compiled scalar expression: evaluated on a batch, it yields one column.
#[derive(Debug)]
pub enum Evaluator {
    /// The batch's column at a position.
    Column(usize),
    /// A kernel applied to the columns of two sub-expressions.
    Binary { left: Box<Evaluator>, kernel: Kernel, right: Box<Evaluator> },
}

/// What an evaluator yields on a batch whose columns are `batch`.
pub open spec fn eval(e: Evaluator, batch: Seq<ArrayView>) -> Result<ArrayView, ExecutionError>
    decreases e,
{
    match e {
        Evaluator::Column(i) => Ok(batch[i as int]),
        Evaluator::Binary { left, kernel, right } => match eval(*left, batch) {
            Err(err) => Err(err),
            Ok(l) => match eval(*right, batch) {
                Err(err) => Err(err),
                Ok(r) => apply_spec(kernel, l, r),
            },
        },
    }
}

impl Evaluator {
    /// Every column that the evaluator reads lies below `n`.
    pub open spec fn columns_below(&self, n: nat) -> bool
        decreases *self,
    {
        match *self {
            Evaluator::Column(i) => i < n,
            Evaluator::Binary { left, right, .. } => left.columns_below(n) && right.columns_below(
                n,
            ),
        }
    }

    /// Tests whether every column that the evaluator reads lies below `n`.
    pub fn reads_columns_below(&self, n: usize) -> (r: bool)
        ensures
            r == self.columns_below(n as nat),
        decreases self,
    {
        match self {
            Evaluator::Column(i) => *i < n,
            Evaluator::Binary { left, right, .. } => left.reads_columns_below(n)
                && right.reads_columns_below(n),
        }
    }

    /// Evaluates the expression on a batch. A column reference hands back
    /// the batch's own column, shared, not copied.
    pub fn evaluate(&self, batch: &RecordBatch) -> (r: Result<ArrayRef, ExecutionError>)
        requires
            self.columns_below(batch.columns@.len()),
            batch.wf(),
        ensures
            match r {
                Ok(a) => eval(*self, batch.arrays()) == Ok::<_, ExecutionError>(a@) && a.wf(),
                Err(e) => eval(*self, batch.arrays()) == Err::<ArrayView, _>(e),
            },
            self matches Evaluator::Column(i) ==> r == Ok::<_, ExecutionError>(
                batch.columns@[i as int],
            ),
        decreases self,
    {
        match self {
            Evaluator::Column(i) => {
                proof {
                    assert(batch.columns@[*i as int]@.wf());
                }
                Ok(batch.columns[*i].clone())
            },
            Evaluator::Binary { left, kernel, right } => {
                let l = left.evaluate(batch)?;
                let r = right.evaluate(batch)?;
                match apply_kernel(*kernel, &l, &r) {
                    Ok(a) => Ok(Arc::new(a)),
                    Err(e) => Err(e),
                }
            },
        }
    }
}

/// Result of compilation: a scalar evaluator with its static result type,
/// or an aggregate descriptor.
#[derive(Debug)]
pub enum RuntimeExpr {
    Compiled { f: Evaluator, t: DataType },
    AggregateFunction { f: AggregateType, args: Vec<Evaluator>, t: DataType },
}

/// A compiled expression, with its argument evaluators as a sequence.
pub enum RuntimeView {
    Compiled { f: Evaluator, t: DataType },
    AggregateFunction { f: AggregateType, args: Seq<Evaluator>, t: DataType },
}

impl View for RuntimeExpr {
    type V = RuntimeView;

    open spec fn view(&self) -> RuntimeView {
        match self {
            RuntimeExpr::Compiled { f, t } => RuntimeView::Compiled { f: *f, t: *t },
            RuntimeExpr::AggregateFunction { f, args, t } => RuntimeView::AggregateFunction {
                f: *f,
                args: args@,
                t: *t,
            },
        }
    }
}

impl RuntimeExpr {
    /// The row-wise evaluator of a scalar expression; an aggregate
    /// descriptor has none.
    pub fn get_func(&self) -> (r: Option<&Evaluator>)
        ensures
            match self@ {
                RuntimeView::Compiled { f, .. } => r == Some(&f),
                RuntimeView::AggregateFunction { .. } => r is None,
            },
    {
        match self {
            RuntimeExpr::Compiled { f, .. } => Some(f),
            RuntimeExpr::AggregateFunction { .. } => None,
        }
    }

    /// The static result type.
    pub fn get_type(&self) -> (r: DataType)
        ensures
            r == match self@ {
                RuntimeView::Compiled { t, .. } => t,
                RuntimeView::AggregateFunction { t, .. } => t,
            },
    {
        match self {
            RuntimeExpr::Compiled { t, .. } => *t,
            RuntimeExpr::AggregateFunction { t, .. } => *t,
        }
    }
}

/// The kernel that implements a binary operator, if any.
pub open spec fn kernel_of(op: Operator) -> Option<Kernel> {
    match op {
        Operator::Eq => Some(Kernel::Eq),
        Operator::NotEq => Some(Kernel::NotEq),
        Operator::Lt => Some(Kernel::Lt),
        Operator::LtEq => Some(Kernel::LtEq),
        Operator::Gt => Some(Kernel::Gt),
        Operator::GtEq => Some(Kernel::GtEq),
        Operator::Plus => Some(Kernel::Add),
        Operator::Minus => Some(Kernel::Subtract),
        Operator::Multiply => Some(Kernel::Multiply),
        Operator::Divide => Some(Kernel::Divide),
        Operator::And | Operator::Or => None,
    }
}

/// Looks up the kernel of a binary operator.
pub fn operator_kernel(op: Operator) -> (r: Option<Kernel>)
    ensures
        r == kernel_of(op),
{
    match op {
        Operator::Eq => Some(Kernel::Eq),
        Operator::NotEq => Some(Kernel::NotEq),
        Operator::Lt => Some(Kernel::Lt),
        Operator::LtEq => Some(Kernel::LtEq),
        Operator::Gt => Some(Kernel::Gt),
        Operator::GtEq => Some(Kernel::GtEq),
        Operator::Plus => Some(Kernel::Add),
        Operator::Minus => Some(Kernel::Subtract),
        Operator::Multiply => Some(Kernel::Multiply),
        Operator::Divide => Some(Kernel::Divide),
        Operator::And | Operator::Or => None,
    }
}

/// Static result type of a binary node: Boolean for a comparison, else the
/// left operand's type.
pub open spec fn binary_type(k: Kernel, left_type: DataType) -> DataType {
    if k.is_comparison() {
        DataType::Boolean
    } else {
        left_type
    }
}

/// Scalar lowering of `expr` against a schema whose field types are
/// `types`: the evaluator and its static type, or the kind of failure.
pub open spec fn scalar_spec(expr: Expr, types: Seq<DataType>) -> Result<
    (Evaluator, DataType),
    ErrorKind,
>
    decreases expr,
{
    match expr {
        Expr::Column(i) => if i < types.len() {
            Ok((Evaluator::Column(i), types[i as int]))
        } else {
            Err(ErrorKind::General)
        },
        Expr::Cast { expr: inner, .. } => match *inner {
            Expr::Column(_) | Expr::Literal(_) => Err(ErrorKind::NotImplemented),
            _ => Err(ErrorKind::General),
        },
        Expr::BinaryExpr { left, op, right } => match scalar_spec(*left, types) {
            Err(e) => Err(e),
            Ok((lf, lt)) => match scalar_spec(*right, types) {
                Err(e) => Err(e),
                Ok((rf, _)) => match kernel_of(op) {
                    None => Err(ErrorKind::NotImplemented),
                    Some(k) => Ok(
                        (
                            Evaluator::Binary { left: Box::new(lf), kernel: k, right: Box::new(rf) },
                            binary_type(k, lt),
                        ),
                    ),
                },
            },
        },
        _ => Err(ErrorKind::NotImplemented),
    }
}

/// The compiled expression matches a scalar lowering.
pub open spec fn scalar_outcome(
    r: Result<RuntimeExpr, ExecutionError>,
    s: Result<(Evaluator, DataType), ErrorKind>,
) -> bool {
    match (r, s) {
        (Ok(re), Ok((f, t))) => re@ == RuntimeView::Compiled { f, t },
        (Err(e), Err(k)) => e.kind() == k,
        _ => false,
    }
}

fn general(msg: &str) -> (r: ExecutionError)
    ensures
        r.kind() == ErrorKind::General,
{
    ExecutionError::General(msg.to_string())
}

/// Compiles a scalar (non-aggregate) expression into an evaluator tagged
/// with its static result type. The context is handed through unread.
pub fn compile_scalar_expr(ctx: &ExecutionContext, expr: &Expr, input_schema: &Schema) -> (r:
    Result<RuntimeExpr, ExecutionError>)
    ensures
        scalar_outcome(r, scalar_spec(*expr, input_schema.types())),
    decreases expr,
{
    match expr {
        Expr::Literal(_) => Err(ExecutionError::NotImplemented),
        Expr::Column(index) => {
            let index = *index;
            if index >= input_schema.fields.len() {
                return Err(general("column index out of range of the schema"));
            }
            Ok(
                RuntimeExpr::Compiled {
                    f: Evaluator::Column(index),
                    t: input_schema.fields[index].data_type(),
                },
            )
        },
        Expr::Cast { expr: inner, .. } => match &**inner {
            Expr::Column(_) => Err(ExecutionError::NotImplemented),
            Expr::Literal(_) => Err(ExecutionError::NotImplemented),
            _ => Err(general("CAST not implemented for this kind of expression")),
        },
        Expr::BinaryExpr { left, op, right } => {
            let left_expr = compile_scalar_expr(ctx, left, input_schema)?;
            let right_expr = compile_scalar_expr(ctx, right, input_schema)?;
            // scalar lowering never yields an aggregate descriptor
            let (lf, lt) = match left_expr {
                RuntimeExpr::Compiled { f, t } => (f, t),
                RuntimeExpr::AggregateFunction { .. } => {
                    return Err(ExecutionError::NotImplemented);
                },
            };
            let rf = match right_expr {
                RuntimeExpr::Compiled { f, .. } => f,
                RuntimeExpr::AggregateFunction { .. } => {
                    return Err(ExecutionError::NotImplemented);
                },
            };
            match operator_kernel(*op) {
                None => Err(ExecutionError::NotImplemented),
                Some(k) => {
                    let t = if k.is_comparison_kernel() {
                        DataType::Boolean
                    } else {
                        lt
                    };
                    Ok(
                        RuntimeExpr::Compiled {
                            f: Evaluator::Binary { left: Box::new(lf), kernel: k, right: Box::new(rf) },
                            t,
                        },
                    )
                },
            }
        },
        _ => Err(ExecutionError::NotImplemented),
    }
}

/// What `str::to_lowercase` returns on a string.
pub uninterp spec fn lower_of(s: Seq<char>) -> Seq<char>;

/// Relies on `str::to_lowercase`: the result depends on the characters of
/// the argument alone.
#[verifier::external_body]
fn lowercase(s: &str) -> (r: String)
    ensures
        r@ == lower_of(s@),
{
    s.to_lowercase()
}

/// The aggregate kind named by an already lower-cased function name.
pub open spec fn aggregate_kind(lowered: Seq<char>) -> Option<AggregateType> {
    if lowered == "min"@ {
        Some(AggregateType::Min)
    } else if lowered == "max"@ {
        Some(AggregateType::Max)
    } else if lowered == "count"@ {
        Some(AggregateType::Count)
    } else if lowered == "sum"@ {
        Some(AggregateType::Sum)
    } else {
        None
    }
}

fn str_equals(s: &str, t: &str) -> (r: bool)
    ensures
        r == (s@ == t@),
{
    let n = s.unicode_len();
    if n != t.unicode_len() {
        return false;
    }
    let mut i: usize = 0;
    while i < n
        invariant
            0 <= i <= n,
            n == s@.len(),
            n == t@.len(),
            forall|j: int| 0 <= j < i ==> s@[j] == t@[j],
        decreases n - i,
    {
        if s.get_char(i) != t.get_char(i) {
            return false;
        }
        i = i + 1;
    }
    assert(s@ =~= t@);
    true
}

/// Looks up the aggregate kind named by an already lower-cased function
/// name; `avg` is not among the names looked up.
pub fn aggregate_type_of(lowered: &str) -> (r: Option<AggregateType>)
    ensures
        r == aggregate_kind(lowered@),
{
    if str_equals(lowered, "min") {
        Some(AggregateType::Min)
    } else if str_equals(lowered, "max") {
        Some(AggregateType::Max)
    } else if str_equals(lowered, "count") {
        Some(AggregateType::Count)
    } else if str_equals(lowered, "sum") {
        Some(AggregateType::Sum)
    } else {
        None
    }
}

/// Top-level lowering of `expr`: an aggregate call becomes a descriptor
/// over its single compiled argument, anything else a scalar evaluator.
pub open spec fn compile_spec(expr: Expr, types: Seq<DataType>) -> Result<RuntimeView, ErrorKind> {
    match expr {
        Expr::AggregateFunction { name, args, return_type } => if args@.len() != 1 {
            Err(ErrorKind::General)
        } else {
            match aggregate_kind(lower_of(name@)) {
                None => Err(ErrorKind::General),
                Some(kind) => match scalar_spec(args@[0], types) {
                    Err(e) => Err(e),
                    Ok((f, _)) => Ok(
                        RuntimeView::AggregateFunction { f: kind, args: seq![f], t: return_type },
                    ),
                },
            }
        },
        _ => match scalar_spec(expr, types) {
            Err(e) => Err(e),
            Ok((f, t)) => Ok(RuntimeView::Compiled { f, t }),
        },
    }
}

/// The compiled expression matches a top-level lowering.
pub open spec fn compile_outcome(
    r: Result<RuntimeExpr, ExecutionError>,
    s: Result<RuntimeView, ErrorKind>,
) -> bool {
    match (r, s) {
        (Ok(re), Ok(v)) => re@ == v,
        (Err(e), Err(k)) => e.kind() == k,
        _ => false,
    }
}

/// Compiles an expression that may be an aggregate call. An aggregate call
/// takes exactly one argument and a name among `min`, `max`, `count` and
/// `sum`, in any case; its declared return type is kept as it is.
pub fn compile_expr(ctx: Rc<ExecutionContext>, expr: &Expr, input_schema: &Schema) -> (r: Result<
    RuntimeExpr,
    ExecutionError,
>)
    ensures
        compile_outcome(r, compile_spec(*expr, input_schema.types())),
{
    match expr {
        Expr::AggregateFunction { name, args, return_type } => {
            if args.len() != 1 {
                return Err(general("an aggregate function takes exactly one argument"));
            }
            let lowered = lowercase(name.as_str());
            let func = match aggregate_type_of(lowered.as_str()) {
                Some(kind) => kind,
                None => {
                    return Err(general("unsupported aggregate function"));
                },
            };
            // scalar lowering never yields an aggregate descriptor
            let arg = compile_scalar_expr(&ctx, &args[0], input_schema)?;
            match arg {
                RuntimeExpr::Compiled { f, .. } => {
                    let mut compiled_args: Vec<Evaluator> = Vec::new();
                    compiled_args.push(f);
                    proof {
                        assert(compiled_args@ =~= seq![f]);
                    }
                    Ok(RuntimeExpr::AggregateFunction { f: func, args: compiled_args, t: *return_type })
                },
                RuntimeExpr::AggregateFunction { .. } => Err(ExecutionError::NotImplemented),
            }
        },
        _ => compile_scalar_expr(&ctx, expr, input_schema),
    }
}

} // verus!
