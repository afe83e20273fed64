use std::sync::Arc;
use vstd::prelude::*;

verus! {

/// Element type of a column.
#[derive(Clone, Copy, Debug, PartialEq, Eq, Structural)]
pub enum DataType {
    Boolean,
    Int8,
    Int16,
    Int32,
    Int64,
    UInt8,
    UInt16,
    UInt32,
    UInt64,
    Float32,
    Float64,
    Utf8,
}

/// The integer element types, those whose values a column of this library holds.
pub open spec fn is_integer(t: DataType) -> bool {
    match t {
        DataType::Int8 | DataType::Int16 | DataType::Int32 | DataType::Int64 | DataType::UInt8
        | DataType::UInt16 | DataType::UInt32 | DataType::UInt64 => true,
        _ => false,
    }
}

/// Smallest value of an integer element type.
pub open spec fn type_min(t: DataType) -> int {
    match t {
        DataType::Int8 => i8::MIN as int,
        DataType::Int16 => i16::MIN as int,
        DataType::Int32 => i32::MIN as int,
        DataType::Int64 => i64::MIN as int,
        _ => 0,
    }
}

/// Largest value of an integer element type.
pub open spec fn type_max(t: DataType) -> int {
    match t {
        DataType::Int8 => i8::MAX as int,
        DataType::Int16 => i16::MAX as int,
        DataType::Int32 => i32::MAX as int,
        DataType::Int64 => i64::MAX as int,
        DataType::UInt8 => u8::MAX as int,
        DataType::UInt16 => u16::MAX as int,
        DataType::UInt32 => u32::MAX as int,
        DataType::UInt64 => u64::MAX as int,
        _ => 0,
    }
}

/// `v` is a value of the integer element type `t`.
pub open spec fn in_range(t: DataType, v: int) -> bool {
    is_integer(t) && type_min(t) <= v <= type_max(t)
}

/// Tests whether `t` is one of the integer element types.
pub fn is_integer_type(t: DataType) -> (r: bool)
    ensures
        r == is_integer(t),
{
    match t {
        DataType::Int8 | DataType::Int16 | DataType::Int32 | DataType::Int64 | DataType::UInt8
        | DataType::UInt16 | DataType::UInt32 | DataType::UInt64 => true,
        _ => false,
    }
}

/// Bounds of an integer element type, as `(min, max)`.
pub fn type_bounds(t: DataType) -> (r: (i128, i128))
    requires
        is_integer(t),
    ensures
        r.0 == type_min(t),
        r.1 == type_max(t),
{
    match t {
        DataType::Int8 => (i8::MIN as i128, i8::MAX as i128),
        DataType::Int16 => (i16::MIN as i128, i16::MAX as i128),
        DataType::Int32 => (i32::MIN as i128, i32::MAX as i128),
        DataType::Int64 => (i64::MIN as i128, i64::MAX as i128),
        DataType::UInt8 => (0, u8::MAX as i128),
        DataType::UInt16 => (0, u16::MAX as i128),
        DataType::UInt32 => (0, u32::MAX as i128),
        _ => (0, u64::MAX as i128),
    }
}

/// A named, typed field of a schema.
#[derive(Clone, Debug)]
pub struct Field {
    pub name: String,
    pub data_type: DataType,
}

impl Field {
    pub fn new(name: String, data_type: DataType) -> (r: Field)
        ensures
            r.name@ == name@,
            r.data_type == data_type,
    {
        Field { name, data_type }
    }

    pub fn data_type(&self) -> (r: DataType)
        ensures
            r == self.data_type,
    {
        self.data_type
    }
}

/// Ordered list of fields describing the columns of a batch.
#[derive(Clone, Debug)]
pub struct Schema {
    pub fields: Vec<Field>,
}

impl Schema {
    pub fn new(fields: Vec<Field>) -> (r: Schema)
        ensures
            r.fields@ == fields@,
    {
        Schema { fields }
    }

    /// The element types of the fields, in order.
    pub open spec fn types(&self) -> Seq<DataType> {
        self.fields@.map_values(|f: Field| f.data_type)
    }
}

/// Values held by a column, one slot per row; `None` is a null slot.
///
/// Integer columns hold their values widened to `i128`, whatever their
/// element type.
#[derive(Clone, Debug)]
pub enum ArrayValues {
    Booleans(Vec<Option<bool>>),
    Integers(Vec<Option<i128>>),
}

/// A typed column.
#[derive(Clone, Debug)]
pub struct Array {
    pub data_type: DataType,
    pub values: ArrayValues,
}

/// Values of a column, as sequences.
pub enum ValuesView {
    Booleans(Seq<Option<bool>>),
    Integers(Seq<Option<i128>>),
}

/// A column, as its element type and its values.
pub struct ArrayView {
    pub data_type: DataType,
    pub values: ValuesView,
}

impl ArrayView {
    /// Number of rows of the column.
    pub open spec fn len(self) -> nat {
        match self.values {
            ValuesView::Booleans(v) => v.len(),
            ValuesView::Integers(v) => v.len(),
        }
    }

    /// The values agree with the element type.
    pub open spec fn wf(self) -> bool {
        match self.values {
            ValuesView::Booleans(_) => self.data_type == DataType::Boolean,
            ValuesView::Integers(v) => is_integer(self.data_type) && forall|i: int|
                0 <= i < v.len() && (#[trigger] v[i]) is Some ==> in_range(
                    self.data_type,
                    v[i]->0 as int,
                ),
        }
    }
}

impl View for Array {
    type V = ArrayView;

    open spec fn view(&self) -> ArrayView {
        ArrayView {
            data_type: self.data_type,
            values: match self.values {
                ArrayValues::Booleans(v) => ValuesView::Booleans(v@),
                ArrayValues::Integers(v) => ValuesView::Integers(v@),
            },
        }
    }
}

impl Array {
    pub open spec fn spec_len(&self) -> nat {
        self@.len()
    }

    pub open spec fn wf(&self) -> bool {
        self@.wf()
    }

    pub fn len(&self) -> (r: usize)
        ensures
            r == self.spec_len(),
    {
        match &self.values {
            ArrayValues::Booleans(v) => v.len(),
            ArrayValues::Integers(v) => v.len(),
        }
    }

    pub fn data_type(&self) -> (r: DataType)
        ensures
            r == self.data_type,
    {
        self.data_type
    }

    /// Tests whether the values agree with the element type.
    pub fn is_valid(&self) -> (r: bool)
        ensures
            r == self.wf(),
    {
        match &self.values {
            ArrayValues::Booleans(_) => self.data_type == DataType::Boolean,
            ArrayValues::Integers(v) => {
                if !is_integer_type(self.data_type) {
                    return false;
                }
                let (lo, hi) = type_bounds(self.data_type);
                let mut i: usize = 0;
                while i < v.len()
                    invariant
                        0 <= i <= v@.len(),
                        self.values == ArrayValues::Integers(*v),
                        lo == type_min(self.data_type),
                        hi == type_max(self.data_type),
                        is_integer(self.data_type),
                        forall|j: int|
                            0 <= j < i && (#[trigger] v@[j]) is Some ==> in_range(
                                self.data_type,
                                v@[j]->0 as int,
                            ),
                    decreases v@.len() - i,
                {
                    if let Some(x) = v[i] {
                        if x < lo || x > hi {
                            assert(v@[i as int] is Some && !in_range(
                                self.data_type,
                                v@[i as int]->0 as int,
                            ));
                            assert(!self.wf());
                            return false;
                        }
                    }
                    i = i + 1;
                }
                true
            },
        }
    }

    /// A Boolean column.
    pub fn from_bools(values: Vec<Option<bool>>) -> (r: Array)
        ensures
            r.data_type == DataType::Boolean,
            r.values == ArrayValues::Booleans(values),
            r.wf(),
    {
        Array { data_type: DataType::Boolean, values: ArrayValues::Booleans(values) }
    }

    /// An integer column of element type `data_type`; `None` where a value
    /// lies outside that type or `data_type` is no integer type.
    pub fn from_integers(data_type: DataType, values: Vec<Option<i128>>) -> (r: Option<Array>)
        ensures
            r is Some <==> is_integer(data_type) && forall|i: int|
                0 <= i < values@.len() && (#[trigger] values@[i]) is Some ==> in_range(
                    data_type,
                    values@[i]->0 as int,
                ),
            r matches Some(a) ==> (a.data_type == data_type && a.values == ArrayValues::Integers(
                values,
            ) && a.wf()),
    {
        if !is_integer_type(data_type) {
            return None;
        }
        let (lo, hi) = type_bounds(data_type);
        let mut i: usize = 0;
        while i < values.len()
            invariant
                0 <= i <= values@.len(),
                lo == type_min(data_type),
                hi == type_max(data_type),
                is_integer(data_type),
                forall|j: int|
                    0 <= j < i && (#[trigger] values@[j]) is Some ==> in_range(
                        data_type,
                        values@[j]->0 as int,
                    ),
            decreases values@.len() - i,
        {
            match values[i] {
                Some(x) => {
                    if x < lo || x > hi {
                        return None;
                    }
                },
                None => {},
            }
            i = i + 1;
        }
        Some(Array { data_type, values: ArrayValues::Integers(values) })
    }

    /// The values of a Boolean column; `None` for any other column.
    pub fn bool_values(&self) -> (r: Option<&Vec<Option<bool>>>)
        ensures
            r is Some <==> self.values is Booleans,
            r matches Some(v) ==> self.values == ArrayValues::Booleans(*v),
    {
        match &self.values {
            ArrayValues::Booleans(v) => Some(v),
            ArrayValues::Integers(_) => None,
        }
    }

    /// The values of an integer column; `None` for any other column.
    pub fn integer_values(&self) -> (r: Option<&Vec<Option<i128>>>)
        ensures
            r is Some <==> self.values is Integers,
            r matches Some(v) ==> self.values == ArrayValues::Integers(*v),
    {
        match &self.values {
            ArrayValues::Booleans(_) => None,
            ArrayValues::Integers(v) => Some(v),
        }
    }
}

/// Shared handle to a column.
pub type ArrayRef = Arc<Array>;

/// A chunk of rows, stored column by column.
#[derive(Clone, Debug)]
pub struct RecordBatch {
    pub columns: Vec<ArrayRef>,
}

impl RecordBatch {
    pub fn new(columns: Vec<ArrayRef>) -> (r: RecordBatch)
        ensures
            r.columns@ == columns@,
    {
        RecordBatch { columns }
    }

    /// The columns, as views.
    pub open spec fn arrays(&self) -> Seq<ArrayView> {
        self.columns@.map_values(|c: ArrayRef| c@)
    }

    /// Every column agrees with its own element type.
    pub open spec fn wf(&self) -> bool {
        forall|i: int| 0 <= i < self.columns@.len() ==> (#[trigger] self.columns@[i])@.wf()
    }

    /// Tests whether every column agrees with its own element type.
    pub fn is_valid(&self) -> (r: bool)
        ensures
            r == self.wf(),
    {
        let mut i: usize = 0;
        while i < self.columns.len()
            invariant
                0 <= i <= self.columns@.len(),
                forall|j: int| 0 <= j < i ==> (#[trigger] self.columns@[j])@.wf(),
            decreases self.columns@.len() - i,
        {
            if !self.columns[i].is_valid() {
                return false;
            }
            i = i + 1;
        }
        true
    }

    pub fn num_columns(&self) -> (r: usize)
        ensures
            r == self.columns@.len(),
    {
        self.columns.len()
    }

}

/// Failure of compilation or of evaluation.
#[derive(Clone, Debug, PartialEq, Eq)]
pub enum ExecutionError {
    /// A legitimate expression shape, operator or type combination that has
    /// no implementation.
    NotImplemented,
    /// Structurally invalid input, with a description.
    General(String),
    /// An integer division whose divisor is zero.
    DivideByZero,
    /// An arithmetic result outside the element type of its operands.
    ArithmeticOverflow,
    /// Two operand columns of different lengths.
    LengthMismatch,
}

/// The variant of an [`ExecutionError`], without its description.
#[derive(Clone, Copy, Debug, PartialEq, Eq, Structural)]
pub enum ErrorKind {
    NotImplemented,
    General,
    DivideByZero,
    ArithmeticOverflow,
    LengthMismatch,
}

impl ExecutionError {
    pub open spec fn kind(&self) -> ErrorKind {
        match self {
            ExecutionError::NotImplemented => ErrorKind::NotImplemented,
            ExecutionError::General(_) => ErrorKind::General,
            ExecutionError::DivideByZero => ErrorKind::DivideByZero,
            ExecutionError::ArithmeticOverflow => ErrorKind::ArithmeticOverflow,
            ExecutionError::LengthMismatch => ErrorKind::LengthMismatch,
        }
    }

    pub fn error_kind(&self) -> (r: ErrorKind)
        ensures
            r == self.kind(),
    {
        match self {
            ExecutionError::NotImplemented => ErrorKind::NotImplemented,
            ExecutionError::General(_) => ErrorKind::General,
            ExecutionError::DivideByZero => ErrorKind::DivideByZero,
            ExecutionError::ArithmeticOverflow => ErrorKind::ArithmeticOverflow,
            ExecutionError::LengthMismatch => ErrorKind::LengthMismatch,
        }
    }
}

/// Operator of a binary expression.
#[derive(Clone, Copy, Debug, PartialEq, Eq, Structural)]
pub enum Operator {
    Eq,
    NotEq,
    Lt,
    LtEq,
    Gt,
    GtEq,
    Plus,
    Minus,
    Multiply,
    Divide,
    And,
    Or,
}

/// A constant value of a logical expression.
#[derive(Clone, Debug)]
pub enum ScalarValue {
    Null,
    Boolean(bool),
    Int64(i64),
    UInt64(u64),
    Utf8(String),
}

/// Node of a logical expression tree.
#[derive(Debug)]
pub enum Expr {
    Literal(ScalarValue),
    /// Reference to the column at a position of the input schema.
    Column(usize),
    Cast { expr: Box<Expr>, data_type: DataType },
    BinaryExpr { left: Box<Expr>, op: Operator, right: Box<Expr> },
    IsNull(Box<Expr>),
    IsNotNull(Box<Expr>),
    AggregateFunction { name: String, args: Vec<Expr>, return_type: DataType },
}

/// Handle on the session that compiles expressions; no compilation step
/// reads it yet.
#[derive(Clone, Debug)]
pub struct ExecutionContext {}

impl ExecutionContext {
    pub fn new() -> (r: ExecutionContext) {
        ExecutionContext {  }
    }
}

} // verus!
