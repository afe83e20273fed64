use std::rc::Rc;
use std::sync::Arc;

use query_expr::expression::{compile_expr, compile_scalar_expr, AggregateType, Evaluator, RuntimeExpr};
use query_expr::kernels::{apply_kernel, Kernel};
use query_expr::types::{
    Array, ArrayRef, DataType, ErrorKind, ExecutionContext, ExecutionError, Expr, Field, Operator,
    RecordBatch, ScalarValue, Schema,
};

fn schema_of(types: &[DataType]) -> Schema {
    Schema::new(
        types
            .iter()
            .enumerate()
            .map(|(i, t)| Field::new(format!("col{}", i), *t))
            .collect(),
    )
}

fn int_column(t: DataType, values: &[i128]) -> ArrayRef {
    Arc::new(Array::from_integers(t, values.iter().map(|v| Some(*v)).collect()).unwrap())
}

fn binary(left: Expr, op: Operator, right: Expr) -> Expr {
    Expr::BinaryExpr { left: Box::new(left), op, right: Box::new(right) }
}

fn ctx() -> Rc<ExecutionContext> {
    Rc::new(ExecutionContext::new())
}

fn compile_ok(expr: &Expr, schema: &Schema) -> RuntimeExpr {
    compile_expr(ctx(), expr, schema).unwrap()
}

fn run(expr: &Expr, schema: &Schema, batch: &RecordBatch) -> Result<ArrayRef, ExecutionError> {
    let compiled = compile_ok(expr, schema);
    let f = compiled.get_func().unwrap();
    assert!(f.reads_columns_below(batch.num_columns()));
    assert!(batch.is_valid());
    f.evaluate(batch)
}

fn ints(a: &Array) -> Vec<Option<i128>> {
    a.integer_values().unwrap().clone()
}

fn bools(a: &Array) -> Vec<Option<bool>> {
    a.bool_values().unwrap().clone()
}

#[test]
fn int32_plus_end_to_end() {
    let schema = schema_of(&[DataType::Int32, DataType::Int32]);
    let expr = binary(Expr::Column(0), Operator::Plus, Expr::Column(1));
    let batch = RecordBatch::new(vec![
        int_column(DataType::Int32, &[1, 2, 3]),
        int_column(DataType::Int32, &[10, 20, 30]),
    ]);
    let compiled = compile_ok(&expr, &schema);
    assert_eq!(compiled.get_type(), DataType::Int32);
    let out = run(&expr, &schema, &batch).unwrap();
    assert_eq!(out.data_type(), DataType::Int32);
    assert_eq!(ints(&out), vec![Some(11), Some(22), Some(33)]);
}

#[test]
fn int32_greater_than_end_to_end() {
    let schema = schema_of(&[DataType::Int32, DataType::Int32]);
    let expr = binary(Expr::Column(0), Operator::Gt, Expr::Column(1));
    let batch = RecordBatch::new(vec![
        int_column(DataType::Int32, &[5, 25, 3]),
        int_column(DataType::Int32, &[10, 20, 30]),
    ]);
    assert_eq!(compile_ok(&expr, &schema).get_type(), DataType::Boolean);
    let out = run(&expr, &schema, &batch).unwrap();
    assert_eq!(out.data_type(), DataType::Boolean);
    assert_eq!(bools(&out), vec![Some(false), Some(true), Some(false)]);
}

#[test]
fn sum_aggregate_descriptor() {
    let schema = schema_of(&[DataType::Int32, DataType::Int32]);
    let expr = Expr::AggregateFunction {
        name: "SUM".to_string(),
        args: vec![Expr::Column(0)],
        return_type: DataType::Int32,
    };
    let compiled = compile_ok(&expr, &schema);
    match &compiled {
        RuntimeExpr::AggregateFunction { f, args, t } => {
            assert_eq!(*f, AggregateType::Sum);
            assert_eq!(args.len(), 1);
            assert!(matches!(args[0], Evaluator::Column(0)));
            assert_eq!(*t, DataType::Int32);
        }
        RuntimeExpr::Compiled { .. } => panic!("expected an aggregate descriptor"),
    }
    assert_eq!(compiled.get_type(), DataType::Int32);
    assert!(compiled.get_func().is_none());
}

#[test]
fn aggregate_names_any_case() {
    let schema = schema_of(&[DataType::Int64]);
    let cases = [
        ("min", AggregateType::Min),
        ("Max", AggregateType::Max),
        ("COUNT", AggregateType::Count),
        ("sUm", AggregateType::Sum),
    ];
    for (name, kind) in cases {
        let expr = Expr::AggregateFunction {
            name: name.to_string(),
            args: vec![Expr::Column(0)],
            return_type: DataType::UInt64,
        };
        match compile_ok(&expr, &schema) {
            RuntimeExpr::AggregateFunction { f, t, .. } => {
                assert_eq!(f, kind);
                assert_eq!(t, DataType::UInt64);
            }
            RuntimeExpr::Compiled { .. } => panic!("expected an aggregate descriptor"),
        }
    }
}

#[test]
fn aggregate_avg_is_not_looked_up() {
    let schema = schema_of(&[DataType::Int64]);
    for name in ["avg", "AVG", "median"] {
        let expr = Expr::AggregateFunction {
            name: name.to_string(),
            args: vec![Expr::Column(0)],
            return_type: DataType::Int64,
        };
        let err = compile_expr(ctx(), &expr, &schema).unwrap_err();
        assert_eq!(err.error_kind(), ErrorKind::General);
    }
}

#[test]
fn aggregate_argument_count() {
    let schema = schema_of(&[DataType::Int64, DataType::Int64]);
    let none = Expr::AggregateFunction {
        name: "sum".to_string(),
        args: vec![],
        return_type: DataType::Int64,
    };
    let two = Expr::AggregateFunction {
        name: "sum".to_string(),
        args: vec![Expr::Column(0), Expr::Column(1)],
        return_type: DataType::Int64,
    };
    assert_eq!(compile_expr(ctx(), &none, &schema).unwrap_err().error_kind(), ErrorKind::General);
    assert_eq!(compile_expr(ctx(), &two, &schema).unwrap_err().error_kind(), ErrorKind::General);
}

#[test]
fn aggregate_argument_failure_propagates() {
    let schema = schema_of(&[DataType::Int64]);
    let expr = Expr::AggregateFunction {
        name: "max".to_string(),
        args: vec![Expr::Literal(ScalarValue::Int64(3))],
        return_type: DataType::Int64,
    };
    assert_eq!(compile_expr(ctx(), &expr, &schema).unwrap_err(), ExecutionError::NotImplemented);
}

#[test]
fn mixed_types_fail_at_evaluation() {
    let schema = schema_of(&[DataType::Int32, DataType::Int64]);
    let expr = binary(Expr::Column(0), Operator::Plus, Expr::Column(1));
    let batch = RecordBatch::new(vec![
        int_column(DataType::Int32, &[1, 2]),
        int_column(DataType::Int64, &[1, 2]),
    ]);
    let compiled = compile_ok(&expr, &schema);
    assert_eq!(compiled.get_type(), DataType::Int32);
    assert_eq!(run(&expr, &schema, &batch).unwrap_err(), ExecutionError::NotImplemented);
    let signed_unsigned = schema_of(&[DataType::UInt8, DataType::Int8]);
    let batch2 = RecordBatch::new(vec![
        int_column(DataType::UInt8, &[1]),
        int_column(DataType::Int8, &[1]),
    ]);
    let cmp = binary(Expr::Column(0), Operator::Eq, Expr::Column(1));
    assert_eq!(run(&cmp, &signed_unsigned, &batch2).unwrap_err(), ExecutionError::NotImplemented);
}

#[test]
fn boolean_operands_not_implemented() {
    let schema = schema_of(&[DataType::Boolean, DataType::Boolean]);
    let batch = RecordBatch::new(vec![
        Arc::new(Array::from_bools(vec![Some(true)])),
        Arc::new(Array::from_bools(vec![Some(false)])),
    ]);
    let expr = binary(Expr::Column(0), Operator::Eq, Expr::Column(1));
    assert_eq!(run(&expr, &schema, &batch).unwrap_err(), ExecutionError::NotImplemented);
}

#[test]
fn logical_operators_rejected() {
    let schema = schema_of(&[DataType::Boolean, DataType::Boolean, DataType::Int32]);
    for op in [Operator::And, Operator::Or] {
        let expr = binary(Expr::Column(0), op, Expr::Column(1));
        assert_eq!(compile_expr(ctx(), &expr, &schema).unwrap_err(), ExecutionError::NotImplemented);
        let expr = binary(Expr::Column(2), op, Expr::Column(2));
        assert_eq!(compile_expr(ctx(), &expr, &schema).unwrap_err(), ExecutionError::NotImplemented);
    }
}

#[test]
fn column_reference_aliases_batch_column() {
    let schema = schema_of(&[DataType::Int16, DataType::UInt32]);
    let batch = RecordBatch::new(vec![
        int_column(DataType::Int16, &[-1, 0, 1]),
        int_column(DataType::UInt32, &[7]),
    ]);
    let compiled = compile_ok(&Expr::Column(1), &schema);
    assert_eq!(compiled.get_type(), DataType::UInt32);
    let out = compiled.get_func().unwrap().evaluate(&batch).unwrap();
    assert!(Arc::ptr_eq(&out, &batch.columns[1]));
    let out0 = compile_ok(&Expr::Column(0), &schema).get_func().unwrap().evaluate(&batch).unwrap();
    assert!(Arc::ptr_eq(&out0, &batch.columns[0]));
}

#[test]
fn column_out_of_schema_is_general_error() {
    let schema = schema_of(&[DataType::Int16]);
    let err = compile_scalar_expr(&ExecutionContext::new(), &Expr::Column(1), &schema).unwrap_err();
    assert_eq!(err.error_kind(), ErrorKind::General);
}

#[test]
fn evaluation_is_repeatable() {
    let schema = schema_of(&[DataType::Int64, DataType::Int64]);
    let expr = binary(
        binary(Expr::Column(0), Operator::Multiply, Expr::Column(1)),
        Operator::Minus,
        Expr::Column(0),
    );
    let batch = RecordBatch::new(vec![
        int_column(DataType::Int64, &[3, -4, 5]),
        int_column(DataType::Int64, &[2, 6, -7]),
    ]);
    let compiled = compile_ok(&expr, &schema);
    let f = compiled.get_func().unwrap();
    let first = f.evaluate(&batch).unwrap();
    let second = f.evaluate(&batch).unwrap();
    assert_eq!(ints(&first), ints(&second));
    assert_eq!(ints(&first), vec![Some(3), Some(-20), Some(-40)]);
}

#[test]
fn literal_and_cast_shapes() {
    let schema = schema_of(&[DataType::Int32]);
    let c = ExecutionContext::new();
    let lit = Expr::Literal(ScalarValue::Int64(1));
    assert_eq!(compile_scalar_expr(&c, &lit, &schema).unwrap_err(), ExecutionError::NotImplemented);
    let cast_col = Expr::Cast { expr: Box::new(Expr::Column(0)), data_type: DataType::Int64 };
    assert_eq!(compile_scalar_expr(&c, &cast_col, &schema).unwrap_err(), ExecutionError::NotImplemented);
    let cast_lit = Expr::Cast {
        expr: Box::new(Expr::Literal(ScalarValue::Boolean(true))),
        data_type: DataType::Int64,
    };
    assert_eq!(compile_scalar_expr(&c, &cast_lit, &schema).unwrap_err(), ExecutionError::NotImplemented);
    let cast_bin = Expr::Cast {
        expr: Box::new(binary(Expr::Column(0), Operator::Plus, Expr::Column(0))),
        data_type: DataType::Int64,
    };
    assert_eq!(compile_scalar_expr(&c, &cast_bin, &schema).unwrap_err().error_kind(), ErrorKind::General);
    let is_null = Expr::IsNull(Box::new(Expr::Column(0)));
    assert_eq!(compile_scalar_expr(&c, &is_null, &schema).unwrap_err(), ExecutionError::NotImplemented);
    let agg = Expr::AggregateFunction {
        name: "sum".to_string(),
        args: vec![Expr::Column(0)],
        return_type: DataType::Int32,
    };
    assert_eq!(compile_scalar_expr(&c, &agg, &schema).unwrap_err(), ExecutionError::NotImplemented);
}

#[test]
fn arithmetic_per_type() {
    let types = [
        DataType::Int8,
        DataType::Int16,
        DataType::Int32,
        DataType::Int64,
        DataType::UInt8,
        DataType::UInt16,
        DataType::UInt32,
        DataType::UInt64,
    ];
    for t in types {
        let l = Array::from_integers(t, vec![Some(12), Some(7), None]).unwrap();
        let r = Array::from_integers(t, vec![Some(4), Some(2), Some(1)]).unwrap();
        let add = apply_kernel(Kernel::Add, &l, &r).unwrap();
        assert_eq!(add.data_type(), t);
        assert_eq!(ints(&add), vec![Some(16), Some(9), None]);
        assert_eq!(ints(&apply_kernel(Kernel::Subtract, &l, &r).unwrap()), vec![Some(8), Some(5), None]);
        assert_eq!(ints(&apply_kernel(Kernel::Multiply, &l, &r).unwrap()), vec![Some(48), Some(14), None]);
        assert_eq!(ints(&apply_kernel(Kernel::Divide, &l, &r).unwrap()), vec![Some(3), Some(3), None]);
    }
}

#[test]
fn comparison_per_type() {
    let kernels = [
        (Kernel::Eq, [false, true, false]),
        (Kernel::NotEq, [true, false, true]),
        (Kernel::Lt, [true, false, false]),
        (Kernel::LtEq, [true, true, false]),
        (Kernel::Gt, [false, false, true]),
        (Kernel::GtEq, [false, true, true]),
    ];
    for t in [DataType::Int8, DataType::UInt64, DataType::Int64, DataType::UInt16] {
        let l = Array::from_integers(t, vec![Some(1), Some(5), Some(9), None]).unwrap();
        let r = Array::from_integers(t, vec![Some(2), Some(5), Some(3), Some(1)]).unwrap();
        for (k, expected) in kernels {
            let out = apply_kernel(k, &l, &r).unwrap();
            assert_eq!(out.data_type(), DataType::Boolean);
            let mut want: Vec<Option<bool>> = expected.iter().map(|b| Some(*b)).collect();
            want.push(None);
            assert_eq!(bools(&out), want);
        }
    }
}

#[test]
fn signed_division_truncates() {
    let l = Array::from_integers(DataType::Int32, vec![Some(-7), Some(7), Some(-7)]).unwrap();
    let r = Array::from_integers(DataType::Int32, vec![Some(2), Some(-2), Some(-2)]).unwrap();
    let out = apply_kernel(Kernel::Divide, &l, &r).unwrap();
    assert_eq!(ints(&out), vec![Some(-3), Some(-3), Some(3)]);
    assert_eq!(-7i32 / 2, -3);
}

#[test]
fn division_by_zero() {
    let l = Array::from_integers(DataType::UInt16, vec![Some(1), Some(2)]).unwrap();
    let r = Array::from_integers(DataType::UInt16, vec![Some(1), Some(0)]).unwrap();
    assert_eq!(apply_kernel(Kernel::Divide, &l, &r).unwrap_err(), ExecutionError::DivideByZero);
    let nulls = Array::from_integers(DataType::UInt16, vec![None, Some(0)]).unwrap();
    let zero = Array::from_integers(DataType::UInt16, vec![Some(0), None]).unwrap();
    assert_eq!(ints(&apply_kernel(Kernel::Divide, &nulls, &zero).unwrap()), vec![None, None]);
}

#[test]
fn overflow_is_an_error() {
    let l = Array::from_integers(DataType::Int8, vec![Some(100)]).unwrap();
    let r = Array::from_integers(DataType::Int8, vec![Some(28)]).unwrap();
    assert_eq!(apply_kernel(Kernel::Add, &l, &r).unwrap_err(), ExecutionError::ArithmeticOverflow);
    let a = Array::from_integers(DataType::UInt8, vec![Some(1)]).unwrap();
    let b = Array::from_integers(DataType::UInt8, vec![Some(2)]).unwrap();
    assert_eq!(apply_kernel(Kernel::Subtract, &a, &b).unwrap_err(), ExecutionError::ArithmeticOverflow);
    let m = Array::from_integers(DataType::Int32, vec![Some(i32::MIN as i128)]).unwrap();
    let n = Array::from_integers(DataType::Int32, vec![Some(-1)]).unwrap();
    assert_eq!(apply_kernel(Kernel::Divide, &m, &n).unwrap_err(), ExecutionError::ArithmeticOverflow);
    let big = Array::from_integers(DataType::UInt64, vec![Some(u64::MAX as i128)]).unwrap();
    assert_eq!(apply_kernel(Kernel::Multiply, &big, &big).unwrap_err(), ExecutionError::ArithmeticOverflow);
    let edge = Array::from_integers(DataType::UInt64, vec![Some(u64::MAX as i128 - 1)]).unwrap();
    let one = Array::from_integers(DataType::UInt64, vec![Some(1)]).unwrap();
    assert_eq!(ints(&apply_kernel(Kernel::Add, &edge, &one).unwrap()), vec![Some(u64::MAX as i128)]);
}

#[test]
fn length_mismatch() {
    let l = Array::from_integers(DataType::Int64, vec![Some(1), Some(2)]).unwrap();
    let r = Array::from_integers(DataType::Int64, vec![Some(1)]).unwrap();
    assert_eq!(apply_kernel(Kernel::Add, &l, &r).unwrap_err(), ExecutionError::LengthMismatch);
    assert_eq!(apply_kernel(Kernel::Lt, &l, &r).unwrap_err(), ExecutionError::LengthMismatch);
}

#[test]
fn empty_columns() {
    let l = Array::from_integers(DataType::Int16, vec![]).unwrap();
    let out = apply_kernel(Kernel::Multiply, &l, &l).unwrap();
    assert_eq!(out.len(), 0);
    assert_eq!(apply_kernel(Kernel::GtEq, &l, &l).unwrap().len(), 0);
}

#[test]
fn float_types_have_no_integer_kernel() {
    let schema = schema_of(&[DataType::Float64, DataType::Float64]);
    let expr = binary(Expr::Column(0), Operator::Plus, Expr::Column(1));
    assert_eq!(compile_ok(&expr, &schema).get_type(), DataType::Float64);
    assert!(Array::from_integers(DataType::Float64, vec![Some(1)]).is_none());
}

#[test]
fn from_integers_checks_range() {
    assert!(Array::from_integers(DataType::Int8, vec![Some(128)]).is_none());
    assert!(Array::from_integers(DataType::Int8, vec![Some(-128), None]).is_some());
    assert!(Array::from_integers(DataType::UInt32, vec![Some(-1)]).is_none());
    let bad = Array { data_type: DataType::UInt8, values: query_expr::types::ArrayValues::Integers(vec![Some(300)]) };
    assert!(!bad.is_valid());
    assert!(!RecordBatch::new(vec![Arc::new(bad)]).is_valid());
}

#[test]
fn nested_expression_types() {
    let schema = schema_of(&[DataType::UInt32, DataType::UInt32]);
    let expr = binary(
        binary(Expr::Column(0), Operator::Plus, Expr::Column(1)),
        Operator::LtEq,
        Expr::Column(1),
    );
    let batch = RecordBatch::new(vec![
        int_column(DataType::UInt32, &[0, 1]),
        int_column(DataType::UInt32, &[5, 5]),
    ]);
    assert_eq!(compile_ok(&expr, &schema).get_type(), DataType::Boolean);
    assert_eq!(bools(&run(&expr, &schema, &batch).unwrap()), vec![Some(true), Some(false)]);
}
