//! Scalar operations: each validates its input columns and emits the nodes
//! of the operation graph that compute its output, casts first.
use vstd::prelude::*;
use vstd::string::*;

use crate::datatypes::{columns_view, Column, ColumnType, ColumnView, DataType};
use crate::error::{DataFrameError, OperationKind};

verus! {

/// The arithmetic that a scalar node performs.
#[derive(Clone, Copy, Debug, PartialEq, Eq, Structural)]
pub enum ScalarExpression {
    Add,
    Subtract,
}

/// What kind of transform a node of the operation graph is.
#[derive(Clone, Copy, Debug, PartialEq, Eq, Structural)]
pub enum Expression {
    Scalar(ScalarExpression),
    Cast,
}

/// One node of the operation graph: a named transform from typed input
/// columns to one typed output column.
#[derive(Debug, PartialEq, Eq)]
pub struct Operation {
    pub name: String,
    pub inputs: Vec<Column>,
    pub output: Column,
    pub expression: Expression,
}

pub struct OperationView {
    pub name: Seq<char>,
    pub inputs: Seq<ColumnView>,
    pub output: ColumnView,
    pub expression: Expression,
}

impl View for Operation {
    type V = OperationView;

    open spec fn view(&self) -> OperationView {
        OperationView {
            name: self.name@,
            inputs: columns_view(self.inputs@),
            output: self.output@,
            expression: self.expression,
        }
    }
}

pub open spec fn name_view(n: Option<String>) -> Option<Seq<char>> {
    match n {
        Some(s) => Some(s@),
        None => None,
    }
}

pub open spec fn ops_result_view(r: Result<Vec<Operation>, DataFrameError>) -> Result<
    Seq<OperationView>,
    DataFrameError,
> {
    match r {
        Ok(v) => Ok(v@.map_values(|o: Operation| o@)),
        Err(e) => Err(e),
    }
}

/// The stable identifier of an operation, used as its node name and in
/// default output names.
pub open spec fn op_name(k: OperationKind) -> Seq<char> {
    match k {
        OperationKind::Add => "add"@,
        OperationKind::Subtract => "subtract"@,
        OperationKind::Cast => "cast"@,
    }
}

/// `<op>(<a>, <b>)`
pub open spec fn binary_default_name(k: OperationKind, a: Seq<char>, b: Seq<char>) -> Seq<char> {
    op_name(k) + "("@ + a + ", "@ + b + ")"@
}

/// `cast(<a> as datatype)`
pub open spec fn cast_default_name(a: Seq<char>) -> Seq<char> {
    op_name(OperationKind::Cast) + "("@ + a + " as datatype)"@
}

/// The single node that casts scalar column `a` to `t`, its output named `out`.
pub open spec fn cast_node(a: ColumnView, out: Seq<char>, t: DataType) -> OperationView {
    OperationView {
        name: op_name(OperationKind::Cast),
        inputs: seq![a],
        output: ColumnView { name: out, column_type: ColumnType::Scalar(t) },
        expression: Expression::Cast,
    }
}

/// What casting `inputs` to `to_type` yields.
pub open spec fn cast_spec(
    inputs: Seq<ColumnView>,
    name: Option<Seq<char>>,
    to_type: Option<DataType>,
) -> Result<Seq<OperationView>, DataFrameError> {
    if inputs.len() != 1 {
        Err(
            DataFrameError::Arity {
                operation: OperationKind::Cast,
                expected: 1,
                found: inputs.len() as usize,
            },
        )
    } else if to_type is None {
        Err(DataFrameError::MissingArgument { operation: OperationKind::Cast })
    } else if inputs[0].column_type is Array {
        Err(DataFrameError::Shape { operation: OperationKind::Cast })
    } else {
        let out = match name {
            Some(n) => n,
            None => cast_default_name(inputs[0].name),
        };
        Ok(seq![cast_node(inputs[0], out, to_type->0)])
    }
}

/// What the binary arithmetic operation `k`, computing `e`, yields on
/// `inputs`. Where the operand types differ, the second operand is first
/// cast to the type of the first; the output has the first operand's type.
/// A requested output type other than that one is refused.
pub open spec fn binary_spec(
    k: OperationKind,
    e: ScalarExpression,
    inputs: Seq<ColumnView>,
    name: Option<Seq<char>>,
    to_type: Option<DataType>,
) -> Result<Seq<OperationView>, DataFrameError> {
    if inputs.len() != 2 {
        Err(DataFrameError::Arity { operation: k, expected: 2, found: inputs.len() as usize })
    } else if inputs[0].column_type is Array || inputs[1].column_type is Array {
        Err(DataFrameError::Shape { operation: k })
    } else {
        let a = inputs[0];
        let b = inputs[1];
        let t = a.column_type->Scalar_0;
        let out = ColumnView {
            name: match name {
                Some(n) => n,
                None => binary_default_name(k, a.name, b.name),
            },
            column_type: ColumnType::Scalar(t),
        };
        if to_type is Some && to_type->0 != t {
            Err(DataFrameError::TargetTypeConflict { operation: k, requested: to_type->0 })
        } else if b.column_type == a.column_type {
            Ok(
                seq![
                    OperationView {
                        name: op_name(k),
                        inputs: seq![a, b],
                        output: out,
                        expression: Expression::Scalar(e),
                    },
                ],
            )
        } else {
            let cast = cast_node(b, cast_default_name(b.name), t);
            Ok(
                seq![
                    cast,
                    OperationView {
                        name: op_name(k),
                        inputs: seq![a, cast.output],
                        output: out,
                        expression: Expression::Scalar(e),
                    },
                ],
            )
        }
    }
}

fn kind_name(k: OperationKind) -> (r: &'static str)
    ensures
        r@ == op_name(k),
{
    match k {
        OperationKind::Add => "add",
        OperationKind::Subtract => "subtract",
        OperationKind::Cast => "cast",
    }
}

fn binary_name(k: OperationKind, a: &String, b: &String) -> (r: String)
    ensures
        r@ == binary_default_name(k, a@, b@),
{
    let r = String::from_str(kind_name(k));
    let r = r.concat("(");
    let r = r.concat(a.as_str());
    let r = r.concat(", ");
    let r = r.concat(b.as_str());
    r.concat(")")
}

fn cast_name(a: &String) -> (r: String)
    ensures
        r@ == cast_default_name(a@),
{
    let r = String::from_str(kind_name(OperationKind::Cast));
    let r = r.concat("(");
    let r = r.concat(a.as_str());
    r.concat(" as datatype)")
}

fn cast_transform(inputs: Vec<Column>, name: Option<String>, to_type: Option<DataType>) -> (r:
    Result<Vec<Operation>, DataFrameError>)
    ensures
        ops_result_view(r) == cast_spec(columns_view(inputs@), name_view(name), to_type),
{
    if inputs.len() != 1 {
        return Err(
            DataFrameError::Arity {
                operation: OperationKind::Cast,
                expected: 1,
                found: inputs.len(),
            },
        );
    }
    let t = match to_type {
        Some(t) => t,
        None => {
            return Err(DataFrameError::MissingArgument { operation: OperationKind::Cast });
        },
    };
    let a = &inputs[0];
    match a.column_type {
        ColumnType::Array(_) => Err(DataFrameError::Shape { operation: OperationKind::Cast }),
        ColumnType::Scalar(_) => {
            let out_name = match name {
                Some(n) => n,
                None => cast_name(&a.name),
            };
            let node = Operation {
                name: String::from_str(kind_name(OperationKind::Cast)),
                inputs: vec![a.clone()],
                output: Column { name: out_name, column_type: ColumnType::Scalar(t) },
                expression: Expression::Cast,
            };
            let ops = vec![node];
            assert(ops@.map_values(|o: Operation| o@) =~= seq![node@]);
            assert(node@.inputs =~= seq![columns_view(inputs@)[0]]);
            Ok(ops)
        },
    }
}

/// The reconciliation shared by every binary scalar operation.
fn binary_transform(
    k: OperationKind,
    e: ScalarExpression,
    inputs: Vec<Column>,
    name: Option<String>,
    to_type: Option<DataType>,
) -> (r: Result<Vec<Operation>, DataFrameError>)
    ensures
        ops_result_view(r) == binary_spec(k, e, columns_view(inputs@), name_view(name), to_type),
{
    if inputs.len() != 2 {
        return Err(DataFrameError::Arity { operation: k, expected: 2, found: inputs.len() });
    }
    let a = &inputs[0];
    let b = &inputs[1];
    assert(columns_view(inputs@)[0] == a@ && columns_view(inputs@)[1] == b@);
    let t = match (a.column_type, b.column_type) {
        (ColumnType::Scalar(ta), ColumnType::Scalar(_)) => ta,
        _ => {
            return Err(DataFrameError::Shape { operation: k });
        },
    };
    if let Some(requested) = to_type {
        if requested != t {
            return Err(DataFrameError::TargetTypeConflict { operation: k, requested });
        }
    }
    let out_name = match name {
        Some(n) => n,
        None => binary_name(k, &a.name, &b.name),
    };
    let output = Column { name: out_name, column_type: ColumnType::Scalar(t) };
    if b.column_type == a.column_type {
        let node = Operation {
            name: String::from_str(kind_name(k)),
            inputs: vec![a.clone(), b.clone()],
            output,
            expression: Expression::Scalar(e),
        };
        let ops = vec![node];
        assert(ops@.map_values(|o: Operation| o@) =~= seq![node@]);
        assert(node@.inputs =~= seq![a@, b@]);
        Ok(ops)
    } else {
        let cast_in = vec![b.clone()];
        assert(columns_view(cast_in@) =~= seq![b@]);
        let cast_ops = cast_transform(cast_in, None, Some(t));
        let mut cast_ops = match cast_ops {
            Ok(ops) => ops,
            Err(err) => {
                return Err(err);
            },
        };
        assert(cast_ops@.map_values(|o: Operation| o@).len() == 1);
        assert(cast_ops@.map_values(|o: Operation| o@)[0] == cast_ops@[0]@);
        let cast_op = cast_ops.pop().unwrap();
        let node = Operation {
            name: String::from_str(kind_name(k)),
            inputs: vec![a.clone(), cast_op.output.clone()],
            output,
            expression: Expression::Scalar(e),
        };
        let ops = vec![cast_op, node];
        assert(ops@.map_values(|o: Operation| o@) =~= seq![cast_op@, node@]);
        assert(node@.inputs =~= seq![a@, cast_op.output@]);
        Ok(ops)
    }
}

/// A scalar operation of the graph builder.
pub trait ScalarOperation {
    spec fn spec_name() -> Seq<char>;

    spec fn spec_transform(
        inputs: Seq<ColumnView>,
        name: Option<Seq<char>>,
        to_type: Option<DataType>,
    ) -> Result<Seq<OperationView>, DataFrameError>;

    /// The stable identifier of the operation.
    fn name() -> (r: &'static str)
        ensures
            r@ == Self::spec_name(),
    ;

    /// The nodes, in dependency order, that compute the operation on
    /// `inputs`, the output named `name` (or a default name), or the reason
    /// why it cannot be built.
    fn transform(inputs: Vec<Column>, name: Option<String>, to_type: Option<DataType>) -> (r:
        Result<Vec<Operation>, DataFrameError>)
        ensures
            ops_result_view(r) == Self::spec_transform(columns_view(inputs@), name_view(name), to_type),
    ;
}

/// Adds two scalar columns.
pub struct AddOperation;

impl ScalarOperation for AddOperation {
    open spec fn spec_name() -> Seq<char> {
        op_name(OperationKind::Add)
    }

    open spec fn spec_transform(
        inputs: Seq<ColumnView>,
        name: Option<Seq<char>>,
        to_type: Option<DataType>,
    ) -> Result<Seq<OperationView>, DataFrameError> {
        binary_spec(OperationKind::Add, ScalarExpression::Add, inputs, name, to_type)
    }

    fn name() -> (r: &'static str) {
        kind_name(OperationKind::Add)
    }

    fn transform(inputs: Vec<Column>, name: Option<String>, to_type: Option<DataType>) -> (r:
        Result<Vec<Operation>, DataFrameError>) {
        binary_transform(OperationKind::Add, ScalarExpression::Add, inputs, name, to_type)
    }
}

/// Casts one scalar column to a target type.
pub struct CastOperation;

impl ScalarOperation for CastOperation {
    open spec fn spec_name() -> Seq<char> {
        op_name(OperationKind::Cast)
    }

    open spec fn spec_transform(
        inputs: Seq<ColumnView>,
        name: Option<Seq<char>>,
        to_type: Option<DataType>,
    ) -> Result<Seq<OperationView>, DataFrameError> {
        cast_spec(inputs, name, to_type)
    }

    fn name() -> (r: &'static str) {
        kind_name(OperationKind::Cast)
    }

    fn transform(inputs: Vec<Column>, name: Option<String>, to_type: Option<DataType>) -> (r:
        Result<Vec<Operation>, DataFrameError>) {
        cast_transform(inputs, name, to_type)
    }
}

/// Subtracts the second scalar column from the first.
pub struct SubtractOperation;

impl ScalarOperation for SubtractOperation {
    open spec fn spec_name() -> Seq<char> {
        op_name(OperationKind::Subtract)
    }

    open spec fn spec_transform(
        inputs: Seq<ColumnView>,
        name: Option<Seq<char>>,
        to_type: Option<DataType>,
    ) -> Result<Seq<OperationView>, DataFrameError> {
        binary_spec(OperationKind::Subtract, ScalarExpression::Subtract, inputs, name, to_type)
    }

    fn name() -> (r: &'static str) {
        kind_name(OperationKind::Subtract)
    }

    fn transform(inputs: Vec<Column>, name: Option<String>, to_type: Option<DataType>) -> (r:
        Result<Vec<Operation>, DataFrameError>) {
        binary_transform(OperationKind::Subtract, ScalarExpression::Subtract, inputs, name, to_type)
    }
}

/// Whether a requested output type agrees with the first operand's type.
pub open spec fn hint_agrees(to_type: Option<DataType>, t: DataType) -> bool {
    to_type is None || to_type == Some(t)
}

/// Two scalar columns of one type: adding or subtracting them yields exactly
/// one node, of the requested expression, whose output has that type.
pub proof fn law_same_type_single_node(
    a: ColumnView,
    b: ColumnView,
    name: Option<Seq<char>>,
    to_type: Option<DataType>,
)
    requires
        a.column_type is Scalar,
        b.column_type == a.column_type,
        hint_agrees(to_type, a.column_type->Scalar_0),
    ensures
        AddOperation::spec_transform(seq![a, b], name, to_type) matches Ok(ops) && ops.len() == 1
            && ops[0].output.column_type == a.column_type && ops[0].inputs == seq![a, b]
            && ops[0].expression == Expression::Scalar(ScalarExpression::Add),
        SubtractOperation::spec_transform(seq![a, b], name, to_type) matches Ok(ops) && ops.len()
            == 1 && ops[0].output.column_type == a.column_type && ops[0].inputs == seq![a, b]
            && ops[0].expression == Expression::Scalar(ScalarExpression::Subtract),
{
}

/// Two scalar columns of different types: adding or subtracting them yields
/// exactly two nodes, a cast of the second operand to the first operand's
/// type, then the arithmetic node on the first operand and the cast's output,
/// whose output has the first operand's type. The cast's output has the cast
/// default name, and without a given name the result has the operation's
/// default name.
pub proof fn law_mixed_types_cast_then_compute(
    a: ColumnView,
    b: ColumnView,
    name: Option<Seq<char>>,
    to_type: Option<DataType>,
)
    requires
        a.column_type is Scalar,
        b.column_type is Scalar,
        b.column_type != a.column_type,
        hint_agrees(to_type, a.column_type->Scalar_0),
    ensures
        AddOperation::spec_transform(seq![a, b], name, to_type) matches Ok(ops) && ops.len() == 2
            && ops[0].expression == Expression::Cast && ops[0].inputs == seq![b]
            && ops[0].output.column_type == a.column_type && ops[1].inputs == seq![
            a,
            ops[0].output,
        ] && ops[1].output.column_type == a.column_type && ops[1].expression
            == Expression::Scalar(ScalarExpression::Add) && ops[0].output.name == cast_default_name(
            b.name,
        ) && (name is None ==> ops[1].output.name == binary_default_name(
            OperationKind::Add,
            a.name,
            b.name,
        )),
        SubtractOperation::spec_transform(seq![a, b], name, to_type) matches Ok(ops) && ops.len()
            == 2 && ops[0].expression == Expression::Cast && ops[0].inputs == seq![b]
            && ops[0].output.column_type == a.column_type && ops[1].inputs == seq![
            a,
            ops[0].output,
        ] && ops[1].output.column_type == a.column_type && ops[1].expression
            == Expression::Scalar(ScalarExpression::Subtract) && ops[0].output.name
            == cast_default_name(b.name) && (name is None ==> ops[1].output.name
            == binary_default_name(OperationKind::Subtract, a.name, b.name)),
{
}

/// A cast fails with an arity error unless it has exactly one input, with a
/// missing-argument error when no target type is given, and with a shape
/// error on an array-valued input.
pub proof fn law_cast_rejections(
    inputs: Seq<ColumnView>,
    name: Option<Seq<char>>,
    to_type: Option<DataType>,
)
    ensures
        inputs.len() != 1 ==> CastOperation::spec_transform(inputs, name, to_type)
            == Err::<Seq<OperationView>, DataFrameError>(
            DataFrameError::Arity {
                operation: OperationKind::Cast,
                expected: 1,
                found: inputs.len() as usize,
            },
        ),
        inputs.len() == 1 && to_type is None ==> CastOperation::spec_transform(
            inputs,
            name,
            to_type,
        ) == Err::<Seq<OperationView>, DataFrameError>(
            DataFrameError::MissingArgument { operation: OperationKind::Cast },
        ),
        inputs.len() == 1 && to_type is Some && inputs[0].column_type is Array
            ==> CastOperation::spec_transform(inputs, name, to_type) == Err::<
            Seq<OperationView>,
            DataFrameError,
        >(DataFrameError::Shape { operation: OperationKind::Cast }),
{
}

/// Adding or subtracting two columns of which either is array-valued fails
/// with a shape error, whatever their types and the requested output type.
pub proof fn law_array_operand_shape_error(
    a: ColumnView,
    b: ColumnView,
    name: Option<Seq<char>>,
    to_type: Option<DataType>,
)
    requires
        a.column_type is Array || b.column_type is Array,
    ensures
        AddOperation::spec_transform(seq![a, b], name, to_type) == Err::<
            Seq<OperationView>,
            DataFrameError,
        >(DataFrameError::Shape { operation: OperationKind::Add }),
        SubtractOperation::spec_transform(seq![a, b], name, to_type) == Err::<
            Seq<OperationView>,
            DataFrameError,
        >(DataFrameError::Shape { operation: OperationKind::Subtract }),
{
}

} // verus!
