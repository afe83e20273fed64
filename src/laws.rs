//! Properties of compilation and evaluation, proved over the spec functions
//! that the executable functions are held to.
use crate::expression::{
    aggregate_kind, compile_spec, eval, kernel_of, lower_of, scalar_spec, AggregateType,
    Evaluator, RuntimeView,
};
use crate::kernels::{
    apply_spec, arith_elem, arith_prefix, arith_value, compare_value, values_in, Kernel,
};
use crate::types::{in_range, is_integer, ArrayView, DataType, ErrorKind, ExecutionError, Expr, Operator, ValuesView};
use vstd::prelude::*;

verus! {

/// A batch, as views, matches the field types of a schema.
pub open spec fn batch_conforms(batch: Seq<ArrayView>, types: Seq<DataType>) -> bool {
    &&& batch.len() == types.len()
    &&& forall|i: int| 0 <= i < types.len() ==> (#[trigger] batch[i]).data_type == types[i]
    &&& forall|i: int| 0 <= i < batch.len() ==> (#[trigger] batch[i]).wf()
}

/// One slot of an arithmetic kernel divides by zero or leaves the element
/// type `t`.
pub open spec fn slot_fails(k: Kernel, t: DataType, x: Option<i128>, y: Option<i128>) -> bool {
    x is Some && y is Some && ((k == Kernel::Divide && y->0 == 0) || !in_range(
        t,
        arith_value(k, x->0 as int, y->0 as int),
    ))
}

/// An arithmetic kernel over a prefix succeeds exactly when every slot does,
/// and then holds slot by slot what each slot yields.
proof fn lemma_arith_prefix_slots(
    k: Kernel,
    t: DataType,
    a: Seq<Option<i128>>,
    b: Seq<Option<i128>>,
    n: nat,
)
    requires
        n <= a.len(),
        n <= b.len(),
    ensures
        arith_prefix(k, t, a, b, n) is Ok <==> forall|i: int|
            0 <= i < n ==> (#[trigger] arith_elem(k, t, a[i], b[i])) is Ok,
        arith_prefix(k, t, a, b, n) matches Ok(s) ==> (s.len() == n && forall|i: int|
            0 <= i < n ==> s[i] == (#[trigger] arith_elem(k, t, a[i], b[i]))->Ok_0),
    decreases n,
{
    if n > 0 {
        lemma_arith_prefix_slots(k, t, a, b, (n - 1) as nat);
        if arith_prefix(k, t, a, b, n) is Ok {
            let s = arith_prefix(k, t, a, b, n)->Ok_0;
            let p = arith_prefix(k, t, a, b, (n - 1) as nat)->Ok_0;
            assert forall|i: int| 0 <= i < n implies s[i] == (#[trigger] arith_elem(
                k,
                t,
                a[i],
                b[i],
            ))->Ok_0 by {
                if i < n - 1 {
                    assert(s[i] == p[i]);
                }
            }
        }
        if !(arith_prefix(k, t, a, b, n) is Ok) {
            if arith_prefix(k, t, a, b, (n - 1) as nat) is Ok {
                assert(!(arith_elem(k, t, a[n - 1], b[n - 1]) is Ok));
            }
        }
    }
}

/// Arithmetic on two columns of one integer type and one length yields a
/// column of that type and length whose every slot holds the operator's
/// value on the two operand slots (null where either is null). It fails
/// exactly when some slot divides by zero or leaves the element type, and
/// each failure is one of those two.
pub proof fn lemma_arithmetic_pointwise(k: Kernel, l: ArrayView, r: ArrayView)
    requires
        !k.is_comparison(),
        l.wf(),
        r.wf(),
        is_integer(l.data_type),
        r.data_type == l.data_type,
        l.len() == r.len(),
    ensures
        ({
            let (a, b) = (l.values->Integers_0, r.values->Integers_0);
            &&& apply_spec(k, l, r) is Ok <==> forall|i: int|
                0 <= i < l.len() ==> !#[trigger] slot_fails(k, l.data_type, a[i], b[i])
            &&& apply_spec(k, l, r) matches Ok(out) ==> {
                &&& out.data_type == l.data_type
                &&& out.len() == l.len()
                &&& out.values matches ValuesView::Integers(v) && forall|i: int|
                    0 <= i < l.len() ==> (#[trigger] v[i]) == if a[i] is Some && b[i] is Some {
                        Some(arith_value(k, a[i]->0 as int, b[i]->0 as int) as i128)
                    } else {
                        None
                    }
            }
            &&& apply_spec(k, l, r) matches Err(e) ==> (e == ExecutionError::DivideByZero || e
                == ExecutionError::ArithmeticOverflow)
        }),
{
    let (a, b) = (l.values->Integers_0, r.values->Integers_0);
    let t = l.data_type;
    lemma_arith_prefix_slots(k, t, a, b, a.len());
    assert forall|i: int| 0 <= i < l.len() implies ((#[trigger] arith_elem(k, t, a[i], b[i])) is Ok
        <==> !slot_fails(k, t, a[i], b[i])) && (arith_elem(k, t, a[i], b[i]) is Ok ==> arith_elem(k, t, a[i], b[i])->Ok_0 == if a[i] is Some
        && b[i] is Some {
        Some(arith_value(k, a[i]->0 as int, b[i]->0 as int) as i128)
    } else {
        None
    }) by {}
    if apply_spec(k, l, r) is Ok {
        let out = apply_spec(k, l, r)->Ok_0;
        let v = out.values->Integers_0;
        assert(v == arith_prefix(k, t, a, b, a.len())->Ok_0);
        assert forall|i: int| 0 <= i < l.len() implies (#[trigger] v[i]) == if a[i] is Some
            && b[i] is Some {
            Some(arith_value(k, a[i]->0 as int, b[i]->0 as int) as i128)
        } else {
            None
        } by {
            assert(v[i] == arith_elem(k, t, a[i], b[i])->Ok_0);
        }
    }
    assert((forall|i: int| 0 <= i < l.len() ==> !#[trigger] slot_fails(k, t, a[i], b[i])) <==> (
    forall|i: int| 0 <= i < a.len() ==> (#[trigger] arith_elem(k, t, a[i], b[i])) is Ok)) by {
        if forall|i: int| 0 <= i < l.len() ==> !#[trigger] slot_fails(k, t, a[i], b[i]) {
            assert forall|i: int| 0 <= i < a.len() implies (#[trigger] arith_elem(
                k,
                t,
                a[i],
                b[i],
            )) is Ok by {
                assert(!slot_fails(k, t, a[i], b[i]));
            }
        }
        if forall|i: int| 0 <= i < a.len() ==> (#[trigger] arith_elem(k, t, a[i], b[i])) is Ok {
            assert forall|i: int| 0 <= i < l.len() implies !#[trigger] slot_fails(
                k,
                t,
                a[i],
                b[i],
            ) by {
                assert(arith_elem(k, t, a[i], b[i]) is Ok);
            }
        }
    }
    if apply_spec(k, l, r) is Err {
        lemma_arith_prefix_err_kind(k, t, a, b, a.len());
    }
}

proof fn lemma_arith_prefix_err_kind(
    k: Kernel,
    t: DataType,
    a: Seq<Option<i128>>,
    b: Seq<Option<i128>>,
    n: nat,
)
    ensures
        arith_prefix(k, t, a, b, n) matches Err(e) ==> (e == ExecutionError::DivideByZero || e
            == ExecutionError::ArithmeticOverflow),
    decreases n,
{
    if n > 0 {
        lemma_arith_prefix_err_kind(k, t, a, b, (n - 1) as nat);
    }
}

/// A comparison on two columns of one integer type and one length yields a
/// Boolean column of that length whose every slot is the comparison of the
/// two operand slots (null where either is null).
pub proof fn lemma_comparison_pointwise(k: Kernel, l: ArrayView, r: ArrayView)
    requires
        k.is_comparison(),
        l.wf(),
        r.wf(),
        is_integer(l.data_type),
        r.data_type == l.data_type,
        l.len() == r.len(),
    ensures
        apply_spec(k, l, r) is Ok,
        ({
            let out = apply_spec(k, l, r)->Ok_0;
            let (a, b) = (l.values->Integers_0, r.values->Integers_0);
            &&& out.data_type == DataType::Boolean
            &&& out.len() == l.len()
            &&& out.values is Booleans
            &&& forall|i: int|
                0 <= i < l.len() ==> (#[trigger] out.values->Booleans_0[i]) == if a[i] is Some
                    && b[i] is Some {
                    Some(compare_value(k, a[i]->0 as int, b[i]->0 as int))
                } else {
                    None
                }
        }),
{
}

/// A binary expression over two columns of different element types
/// compiles, and its evaluation fails as not implemented: no operand is
/// converted to the other's type.
pub proof fn lemma_mixed_types_fail_at_evaluation(
    types: Seq<DataType>,
    i: usize,
    op: Operator,
    j: usize,
    batch: Seq<ArrayView>,
)
    requires
        i < types.len(),
        j < types.len(),
        types[i as int] != types[j as int],
        op != Operator::And,
        op != Operator::Or,
        batch_conforms(batch, types),
    ensures
        compile_spec(
            Expr::BinaryExpr {
                left: Box::new(Expr::Column(i)),
                op,
                right: Box::new(Expr::Column(j)),
            },
            types,
        ) matches Ok(RuntimeView::Compiled { f, .. }) && eval(f, batch) == Err::<
            ArrayView,
            ExecutionError,
        >(ExecutionError::NotImplemented),
{
    assert(batch[i as int].data_type == types[i as int]);
    assert(batch[j as int].data_type == types[j as int]);
    let k = kernel_of(op)->Some_0;
    assert(scalar_spec(Expr::Column(i), types) == Ok::<_, ErrorKind>(
        (Evaluator::Column(i), types[i as int]),
    ));
    assert(scalar_spec(Expr::Column(j), types) == Ok::<_, ErrorKind>(
        (Evaluator::Column(j), types[j as int]),
    ));
    let f = Evaluator::Binary {
        left: Box::new(Evaluator::Column(i)),
        kernel: k,
        right: Box::new(Evaluator::Column(j)),
    };
    assert(eval(Evaluator::Column(i), batch) == Ok::<_, ExecutionError>(batch[i as int]));
    assert(eval(Evaluator::Column(j), batch) == Ok::<_, ExecutionError>(batch[j as int]));
    assert(eval(f, batch) == apply_spec(k, batch[i as int], batch[j as int]));
}

/// A binary expression with `And` or `Or` fails to compile, whatever its
/// operands.
pub proof fn lemma_logical_operators_rejected(
    left: Expr,
    op: Operator,
    right: Expr,
    types: Seq<DataType>,
)
    requires
        op == Operator::And || op == Operator::Or,
    ensures
        compile_spec(
            Expr::BinaryExpr { left: Box::new(left), op, right: Box::new(right) },
            types,
        ) is Err,
{
}

/// A column reference compiles to an evaluator of the schema's field type
/// that yields the batch's column at that position.
pub proof fn lemma_column_reference(i: usize, types: Seq<DataType>, batch: Seq<ArrayView>)
    requires
        i < types.len(),
        batch_conforms(batch, types),
    ensures
        compile_spec(Expr::Column(i), types) == Ok::<_, ErrorKind>(
            RuntimeView::Compiled { f: Evaluator::Column(i), t: types[i as int] },
        ),
        eval(Evaluator::Column(i), batch) == Ok::<_, ExecutionError>(batch[i as int]),
        batch[i as int].data_type == types[i as int],
{
}

/// An aggregate call with other than one argument fails as a general
/// error; with one argument that compiles and a name that lower-cases to
/// `min`, `max`, `count` or `sum`, it yields a descriptor of that kind over
/// the argument's evaluator, with the declared return type.
pub proof fn lemma_aggregate_compilation(
    name: String,
    args: Vec<Expr>,
    return_type: DataType,
    types: Seq<DataType>,
)
    ensures
        args@.len() != 1 ==> compile_spec(
            Expr::AggregateFunction { name, args, return_type },
            types,
        ) == Err::<RuntimeView, _>(ErrorKind::General),
        args@.len() == 1 && aggregate_kind(lower_of(name@)) is None ==> compile_spec(
            Expr::AggregateFunction { name, args, return_type },
            types,
        ) == Err::<RuntimeView, _>(ErrorKind::General),
        args@.len() == 1 && aggregate_kind(lower_of(name@)) is Some && scalar_spec(
            args@[0],
            types,
        ) is Ok ==> compile_spec(Expr::AggregateFunction { name, args, return_type }, types)
            == Ok::<_, ErrorKind>(
            RuntimeView::AggregateFunction {
                f: aggregate_kind(lower_of(name@))->Some_0,
                args: seq![scalar_spec(args@[0], types)->Ok_0.0],
                t: return_type,
            },
        ),
{
}

/// The names recognized by the aggregate lookup, and `avg`, which is not.
pub proof fn lemma_aggregate_names()
    ensures
        aggregate_kind("min"@) == Some(AggregateType::Min),
        aggregate_kind("max"@) == Some(AggregateType::Max),
        aggregate_kind("count"@) == Some(AggregateType::Count),
        aggregate_kind("sum"@) == Some(AggregateType::Sum),
        aggregate_kind("avg"@) is None,
{
    reveal_strlit("min");
    reveal_strlit("max");
    reveal_strlit("count");
    reveal_strlit("sum");
    reveal_strlit("avg");
    assert("avg"@[1] != "min"@[1]);
    assert("avg"@[0] != "max"@[0]);
    assert("avg"@.len() != "count"@.len());
    assert("avg"@[0] != "sum"@[0]);
}

/// Evaluating one compiled evaluator twice on one batch gives the same
/// outcome both times: evaluation depends on the evaluator and the batch
/// alone.
pub proof fn lemma_evaluation_repeatable(
    e: Evaluator,
    batch: Seq<ArrayView>,
    first: Result<ArrayView, ExecutionError>,
    second: Result<ArrayView, ExecutionError>,
)
    requires
        first == eval(e, batch),
        second == eval(e, batch),
    ensures
        first == second,
{
}

/// The static result type of a compiled scalar expression is the type of
/// the column that its evaluation yields on a batch of the schema, and the
/// evaluator reads only columns of the schema.
pub proof fn lemma_result_type_sound(expr: Expr, types: Seq<DataType>, batch: Seq<ArrayView>)
    requires
        batch_conforms(batch, types),
    ensures
        scalar_spec(expr, types) matches Ok((f, t)) ==> f.columns_below(types.len()) && (eval(
            f,
            batch,
        ) matches Ok(a) ==> a.data_type == t && a.wf()),
    decreases expr,
{
    match expr {
        Expr::Column(i) => {
            if i < types.len() {
                assert(batch[i as int].data_type == types[i as int]);
                assert(batch[i as int].wf());
            }
        },
        Expr::BinaryExpr { left, op, right } => {
            lemma_result_type_sound(*left, types, batch);
            lemma_result_type_sound(*right, types, batch);
            if let Ok((f, t)) = scalar_spec(expr, types) {
                let (lf, lt) = scalar_spec(*left, types)->Ok_0;
                let (rf, _) = scalar_spec(*right, types)->Ok_0;
                let k = kernel_of(op)->Some_0;
                if let Ok(a) = eval(f, batch) {
                    let l = eval(lf, batch)->Ok_0;
                    let r = eval(rf, batch)->Ok_0;
                    assert(apply_spec(k, l, r) == Ok::<_, ExecutionError>(a));
                    if k.is_comparison() {
                        assert(a.wf());
                    } else {
                        let (x, y) = (l.values->Integers_0, r.values->Integers_0);
                        crate::kernels::lemma_arith_prefix_wf(k, l.data_type, x, y, x.len());
                        assert(values_in(l.data_type, a.values->Integers_0));
                    }
                }
            }
        },
        _ => {},
    }
}

} // verus!
