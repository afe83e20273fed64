//! The type dispatch matrix: elementwise comparison and arithmetic kernels
//! over pairs of columns of one integer element type.
use crate::types::{in_range, is_integer, is_integer_type, type_bounds, Array, ArrayValues, ArrayView, DataType, ExecutionError, ValuesView};
use vstd::prelude::*;

verus! {

/// An elementwise binary operation with an implementation.
#[derive(Clone, Copy, Debug, PartialEq, Eq, Structural)]
pub enum Kernel {
    Eq,
    NotEq,
    Lt,
    LtEq,
    Gt,
    GtEq,
    Add,
    Subtract,
    Multiply,
    Divide,
}

impl Kernel {
    /// The kernel yields a Boolean column.
    pub open spec fn is_comparison(self) -> bool {
        match self {
            Kernel::Eq | Kernel::NotEq | Kernel::Lt | Kernel::LtEq | Kernel::Gt | Kernel::GtEq => true,
            _ => false,
        }
    }

    pub fn is_comparison_kernel(self) -> (r: bool)
        ensures
            r == self.is_comparison(),
    {
        match self {
            Kernel::Eq | Kernel::NotEq | Kernel::Lt | Kernel::LtEq | Kernel::Gt | Kernel::GtEq => true,
            _ => false,
        }
    }
}

pub open spec fn abs(x: int) -> int {
    if x < 0 {
        -x
    } else {
        x
    }
}

/// Integer division rounding toward zero, as Rust's `/` does.
pub open spec fn trunc_div(x: int, y: int) -> int {
    let q = abs(x) / abs(y);
    if (x < 0) != (y < 0) {
        -q
    } else {
        q
    }
}

/// Mathematical value of an arithmetic kernel.
pub open spec fn arith_value(k: Kernel, x: int, y: int) -> int {
    match k {
        Kernel::Add => x + y,
        Kernel::Subtract => x - y,
        Kernel::Multiply => x * y,
        _ => trunc_div(x, y),
    }
}

/// Truth value of a comparison kernel.
pub open spec fn compare_value(k: Kernel, x: int, y: int) -> bool {
    match k {
        Kernel::Eq => x == y,
        Kernel::NotEq => x != y,
        Kernel::Lt => x < y,
        Kernel::LtEq => x <= y,
        Kernel::Gt => x > y,
        _ => x >= y,
    }
}

/// One slot of an arithmetic kernel on element type `t`: null where either
/// operand is null, else the value when it lies in `t`.
pub open spec fn arith_elem(k: Kernel, t: DataType, x: Option<i128>, y: Option<i128>) -> Result<
    Option<i128>,
    ExecutionError,
> {
    match (x, y) {
        (Some(a), Some(b)) => if k == Kernel::Divide && b == 0 {
            Err(ExecutionError::DivideByZero)
        } else if in_range(t, arith_value(k, a as int, b as int)) {
            Ok(Some(arith_value(k, a as int, b as int) as i128))
        } else {
            Err(ExecutionError::ArithmeticOverflow)
        },
        _ => Ok(None),
    }
}

/// The arithmetic kernel over the first `n` slots: the first failing slot
/// decides the error.
pub open spec fn arith_prefix(
    k: Kernel,
    t: DataType,
    a: Seq<Option<i128>>,
    b: Seq<Option<i128>>,
    n: nat,
) -> Result<Seq<Option<i128>>, ExecutionError>
    decreases n,
{
    if n == 0 {
        Ok(Seq::empty())
    } else {
        match arith_prefix(k, t, a, b, (n - 1) as nat) {
            Err(e) => Err(e),
            Ok(s) => match arith_elem(k, t, a[n - 1], b[n - 1]) {
                Err(e) => Err(e),
                Ok(v) => Ok(s.push(v)),
            },
        }
    }
}

/// One slot of a comparison kernel: null where either operand is null.
pub open spec fn compare_elem(k: Kernel, x: Option<i128>, y: Option<i128>) -> Option<bool> {
    match (x, y) {
        (Some(a), Some(b)) => Some(compare_value(k, a as int, b as int)),
        _ => None,
    }
}

/// A comparison kernel over two columns of equal length.
pub open spec fn compare_column(k: Kernel, a: Seq<Option<i128>>, b: Seq<Option<i128>>) -> Seq<
    Option<bool>,
> {
    Seq::new(a.len(), |i: int| compare_elem(k, a[i], b[i]))
}

/// What a kernel yields on two columns: only two integer columns of one
/// element type and one length are accepted.
pub open spec fn apply_spec(k: Kernel, l: ArrayView, r: ArrayView) -> Result<ArrayView, ExecutionError> {
    if l.data_type != r.data_type || !is_integer(l.data_type) {
        Err(ExecutionError::NotImplemented)
    } else {
        match (l.values, r.values) {
            (ValuesView::Integers(a), ValuesView::Integers(b)) => if a.len() != b.len() {
                Err(ExecutionError::LengthMismatch)
            } else if k.is_comparison() {
                Ok(
                    ArrayView {
                        data_type: DataType::Boolean,
                        values: ValuesView::Booleans(compare_column(k, a, b)),
                    },
                )
            } else {
                match arith_prefix(k, l.data_type, a, b, a.len()) {
                    Err(e) => Err(e),
                    Ok(s) => Ok(
                        ArrayView {
                            data_type: l.data_type,
                            values: ValuesView::Integers(s),
                        },
                    ),
                }
            },
            _ => Err(ExecutionError::NotImplemented),
        }
    }
}

/// Once the kernel has failed on a prefix, longer prefixes fail the same way.
proof fn lemma_arith_prefix_err_persists(
    k: Kernel,
    t: DataType,
    a: Seq<Option<i128>>,
    b: Seq<Option<i128>>,
    i: nat,
    n: nat,
)
    requires
        i <= n,
        arith_prefix(k, t, a, b, i) is Err,
    ensures
        arith_prefix(k, t, a, b, n) == arith_prefix(k, t, a, b, i),
    decreases n - i,
{
    if i < n {
        lemma_arith_prefix_err_persists(k, t, a, b, i, (n - 1) as nat);
    }
}

/// The slots of `v` that are not null lie in the element type `t`.
pub open spec fn values_in(t: DataType, v: Seq<Option<i128>>) -> bool {
    forall|i: int| 0 <= i < v.len() && (#[trigger] v[i]) is Some ==> in_range(t, v[i]->0 as int)
}

fn arith_slot(k: Kernel, t: DataType, lo: i128, hi: i128, x: Option<i128>, y: Option<i128>) -> (r:
    Result<Option<i128>, ExecutionError>)
    requires
        !k.is_comparison(),
        is_integer(t),
        lo == crate::types::type_min(t),
        hi == crate::types::type_max(t),
        x matches Some(a) ==> in_range(t, a as int),
        y matches Some(b) ==> in_range(t, b as int),
    ensures
        r == arith_elem(k, t, x, y),
{
    match (x, y) {
        (Some(a), Some(b)) => {
            let v: Option<i128> = match k {
                Kernel::Add => a.checked_add(b),
                Kernel::Subtract => a.checked_sub(b),
                Kernel::Multiply => a.checked_mul(b),
                _ => {
                    if b == 0 {
                        return Err(ExecutionError::DivideByZero);
                    }
                    let na: i128 = if a < 0 {
                        -a
                    } else {
                        a
                    };
                    let nb: i128 = if b < 0 {
                        -b
                    } else {
                        b
                    };
                    let q: i128 = na / nb;
                    assert(q == abs(a as int) / abs(b as int));
                    assert(0 <= q <= na) by (nonlinear_arith)
                        requires
                            q == na / nb,
                            na >= 0,
                            nb > 0,
                    ;
                    if (a < 0) != (b < 0) {
                        Some(-q)
                    } else {
                        Some(q)
                    }
                },
            };
            match v {
                None => Err(ExecutionError::ArithmeticOverflow),
                Some(v) => if v < lo || v > hi {
                    Err(ExecutionError::ArithmeticOverflow)
                } else {
                    Ok(Some(v))
                },
            }
        },
        _ => Ok(None),
    }
}

fn arith_values(k: Kernel, t: DataType, a: &Vec<Option<i128>>, b: &Vec<Option<i128>>) -> (r: Result<
    Vec<Option<i128>>,
    ExecutionError,
>)
    requires
        !k.is_comparison(),
        is_integer(t),
        a@.len() == b@.len(),
        values_in(t, a@),
        values_in(t, b@),
    ensures
        match r {
            Ok(v) => arith_prefix(k, t, a@, b@, a@.len()) == Ok::<_, ExecutionError>(v@),
            Err(e) => arith_prefix(k, t, a@, b@, a@.len()) == Err::<Seq<Option<i128>>, _>(e),
        },
{
    let (lo, hi) = type_bounds(t);
    let mut out: Vec<Option<i128>> = Vec::new();
    let mut i: usize = 0;
    while i < a.len()
        invariant
            0 <= i <= a@.len(),
            a@.len() == b@.len(),
            !k.is_comparison(),
            is_integer(t),
            values_in(t, a@),
            values_in(t, b@),
            lo == crate::types::type_min(t),
            hi == crate::types::type_max(t),
            arith_prefix(k, t, a@, b@, i as nat) == Ok::<_, ExecutionError>(out@),
        decreases a@.len() - i,
    {
        let x = a[i];
        let y = b[i];
        assert(x matches Some(v) ==> in_range(t, v as int)) by {
            if x is Some {
                assert(a@[i as int] is Some);
            }
        }
        assert(y matches Some(v) ==> in_range(t, v as int)) by {
            if y is Some {
                assert(b@[i as int] is Some);
            }
        }
        match arith_slot(k, t, lo, hi, x, y) {
            Err(e) => {
                assert(arith_prefix(k, t, a@, b@, (i + 1) as nat) == Err::<Seq<Option<i128>>, _>(e));
                proof {
                    lemma_arith_prefix_err_persists(k, t, a@, b@, (i + 1) as nat, a@.len());
                }
                return Err(e);
            },
            Ok(v) => {
                out.push(v);
            },
        }
        i = i + 1;
    }
    Ok(out)
}

fn compare_values(k: Kernel, a: &Vec<Option<i128>>, b: &Vec<Option<i128>>) -> (r: Vec<Option<bool>>)
    requires
        a@.len() == b@.len(),
    ensures
        r@ == compare_column(k, a@, b@),
{
    let mut out: Vec<Option<bool>> = Vec::new();
    let mut i: usize = 0;
    while i < a.len()
        invariant
            0 <= i <= a@.len(),
            a@.len() == b@.len(),
            out@.len() == i,
            forall|j: int| 0 <= j < i ==> out@[j] == compare_elem(k, a@[j], b@[j]),
        decreases a@.len() - i,
    {
        let v: Option<bool> = match (a[i], b[i]) {
            (Some(x), Some(y)) => Some(
                match k {
                    Kernel::Eq => x == y,
                    Kernel::NotEq => x != y,
                    Kernel::Lt => x < y,
                    Kernel::LtEq => x <= y,
                    Kernel::Gt => x > y,
                    _ => x >= y,
                },
            ),
            _ => None,
        };
        out.push(v);
        i = i + 1;
    }
    assert(out@ =~= compare_column(k, a@, b@));
    out
}

/// Applies a kernel to two columns: the dispatch matrix accepts a pair of
/// integer columns of one element type and one length, and nothing else.
pub fn apply_kernel(k: Kernel, l: &Array, r: &Array) -> (res: Result<Array, ExecutionError>)
    requires
        l.wf(),
        r.wf(),
    ensures
        match res {
            Ok(a) => apply_spec(k, l@, r@) == Ok::<_, ExecutionError>(a@) && a.wf(),
            Err(e) => apply_spec(k, l@, r@) == Err::<ArrayView, _>(e),
        },
{
    if l.data_type != r.data_type || !is_integer_type(l.data_type) {
        return Err(ExecutionError::NotImplemented);
    }
    match (&l.values, &r.values) {
        (ArrayValues::Integers(a), ArrayValues::Integers(b)) => {
            if a.len() != b.len() {
                return Err(ExecutionError::LengthMismatch);
            }
            if k.is_comparison_kernel() {
                let v = compare_values(k, a, b);
                Ok(Array { data_type: DataType::Boolean, values: ArrayValues::Booleans(v) })
            } else {
                assert(values_in(l.data_type, a@));
                assert(values_in(l.data_type, b@));
                match arith_values(k, l.data_type, a, b) {
                    Err(e) => Err(e),
                    Ok(v) => {
                        proof {
                            lemma_arith_prefix_wf(k, l.data_type, a@, b@, a@.len());
                        }
                        Ok(Array { data_type: l.data_type, values: ArrayValues::Integers(v) })
                    },
                }
            }
        },
        _ => Err(ExecutionError::NotImplemented),
    }
}

/// A successful arithmetic kernel has one slot per row, each in the
/// element type.
pub proof fn lemma_arith_prefix_wf(
    k: Kernel,
    t: DataType,
    a: Seq<Option<i128>>,
    b: Seq<Option<i128>>,
    n: nat,
)
    ensures
        arith_prefix(k, t, a, b, n) matches Ok(s) ==> s.len() == n && values_in(t, s),
    decreases n,
{
    if n > 0 {
        lemma_arith_prefix_wf(k, t, a, b, (n - 1) as nat);
        if let Ok(s) = arith_prefix(k, t, a, b, n) {
            let p = arith_prefix(k, t, a, b, (n - 1) as nat)->Ok_0;
            assert(s == p.push(arith_elem(k, t, a[n - 1], b[n - 1])->Ok_0));
            assert forall|i: int| 0 <= i < s.len() && (#[trigger] s[i]) is Some implies in_range(
                t,
                s[i]->0 as int,
            ) by {
                if i < n - 1 {
                    assert(s[i] == p[i]);
                }
            }
        }
    }
}

} // verus!
