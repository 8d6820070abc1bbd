use dataframe::error::OperationKind;
use dataframe::{
    AddOperation, CastOperation, Column, ColumnType, DataFrameError, DataType, Expression,
    Operation, ScalarExpression, ScalarOperation, SubtractOperation,
};

fn scalar(name: &str, t: DataType) -> Column {
    Column { name: name.to_owned(), column_type: ColumnType::Scalar(t) }
}

fn array(name: &str, t: DataType) -> Column {
    Column { name: name.to_owned(), column_type: ColumnType::Array(t) }
}

#[test]
fn scalar_operations() {
    let a = Column {
        name: "a".to_owned(),
        column_type: ColumnType::Scalar(DataType::Int64),
    };
    let b = Column {
        name: "b".to_owned(),
        column_type: ColumnType::Scalar(DataType::Int32),
    };

    let add = AddOperation::transform(vec![a, b], None, None).unwrap();

    assert_eq!(
        "[Operation { name: \"cast\", inputs: [Column { name: \"b\", column_type: Scalar(Int32) }], output: Column { name: \"cast(b as datatype)\", column_type: Scalar(Int64) }, expression: Cast }, Operation { name: \"add\", inputs: [Column { name: \"a\", column_type: Scalar(Int64) }, Column { name: \"cast(b as datatype)\", column_type: Scalar(Int64) }], output: Column { name: \"add(a, b)\", column_type: Scalar(Int64) }, expression: Scalar(Add) }]",
        format!("{:?}", add)
    );
}

#[test]
fn operation_names() {
    assert_eq!(AddOperation::name(), "add");
    assert_eq!(SubtractOperation::name(), "subtract");
    assert_eq!(CastOperation::name(), "cast");
}

#[test]
fn add_same_types_is_one_node() {
    let ops = AddOperation::transform(
        vec![scalar("x", DataType::Float64), scalar("y", DataType::Float64)],
        None,
        None,
    )
    .unwrap();
    assert_eq!(
        ops,
        vec![Operation {
            name: "add".to_owned(),
            inputs: vec![scalar("x", DataType::Float64), scalar("y", DataType::Float64)],
            output: scalar("add(x, y)", DataType::Float64),
            expression: Expression::Scalar(ScalarExpression::Add),
        }]
    );
}

#[test]
fn subtract_same_types_is_one_node() {
    let ops = SubtractOperation::transform(
        vec![scalar("x", DataType::Int32), scalar("y", DataType::Int32)],
        Some("diff".to_owned()),
        None,
    )
    .unwrap();
    assert_eq!(ops.len(), 1);
    assert_eq!(ops[0].name, "subtract");
    assert_eq!(ops[0].output, scalar("diff", DataType::Int32));
    assert_eq!(ops[0].expression, Expression::Scalar(ScalarExpression::Subtract));
}

#[test]
fn subtract_mixed_types_casts_second_and_keeps_tag() {
    let ops = SubtractOperation::transform(
        vec![scalar("a", DataType::Int64), scalar("b", DataType::Int32)],
        None,
        None,
    )
    .unwrap();
    assert_eq!(ops.len(), 2);
    assert_eq!(ops[0].expression, Expression::Cast);
    assert_eq!(ops[0].inputs, vec![scalar("b", DataType::Int32)]);
    assert_eq!(ops[0].output, scalar("cast(b as datatype)", DataType::Int64));
    assert_eq!(
        ops[1].inputs,
        vec![scalar("a", DataType::Int64), scalar("cast(b as datatype)", DataType::Int64)]
    );
    assert_eq!(ops[1].output, scalar("subtract(a, b)", DataType::Int64));
    assert_eq!(ops[1].expression, Expression::Scalar(ScalarExpression::Subtract));
}

#[test]
fn default_names_of_add_and_cast() {
    let ops = AddOperation::transform(
        vec![scalar("a", DataType::Int64), scalar("b", DataType::Int32)],
        None,
        None,
    )
    .unwrap();
    assert_eq!(ops[0].output.name, "cast(b as datatype)");
    assert_eq!(ops[1].output.name, "add(a, b)");
    assert_eq!(ops[1].output.column_type, ColumnType::Scalar(DataType::Int64));
    let cast =
        CastOperation::transform(vec![scalar("b", DataType::Int32)], None, Some(DataType::Int64))
            .unwrap();
    assert_eq!(cast[0].output, scalar("cast(b as datatype)", DataType::Int64));
}

#[test]
fn cast_wrong_arity() {
    assert_eq!(
        CastOperation::transform(vec![], None, Some(DataType::Utf8)),
        Err(DataFrameError::Arity { operation: OperationKind::Cast, expected: 1, found: 0 })
    );
    assert_eq!(
        CastOperation::transform(
            vec![scalar("a", DataType::Int8), scalar("b", DataType::Int8)],
            None,
            Some(DataType::Utf8)
        ),
        Err(DataFrameError::Arity { operation: OperationKind::Cast, expected: 1, found: 2 })
    );
}

#[test]
fn cast_without_target_type() {
    assert_eq!(
        CastOperation::transform(vec![scalar("a", DataType::Int8)], None, None),
        Err(DataFrameError::MissingArgument { operation: OperationKind::Cast })
    );
}

#[test]
fn cast_of_array_column() {
    assert_eq!(
        CastOperation::transform(vec![array("a", DataType::Int8)], None, Some(DataType::Int64)),
        Err(DataFrameError::Shape { operation: OperationKind::Cast })
    );
}

#[test]
fn arithmetic_wrong_arity() {
    assert_eq!(
        AddOperation::transform(vec![scalar("a", DataType::Int8)], None, None),
        Err(DataFrameError::Arity { operation: OperationKind::Add, expected: 2, found: 1 })
    );
    assert_eq!(
        SubtractOperation::transform(
            vec![
                scalar("a", DataType::Int8),
                scalar("b", DataType::Int8),
                scalar("c", DataType::Int8)
            ],
            None,
            None
        ),
        Err(DataFrameError::Arity { operation: OperationKind::Subtract, expected: 2, found: 3 })
    );
}

#[test]
fn arithmetic_on_arrays_is_a_shape_error() {
    assert_eq!(
        AddOperation::transform(
            vec![array("a", DataType::Int64), scalar("b", DataType::Int32)],
            None,
            None
        ),
        Err(DataFrameError::Shape { operation: OperationKind::Add })
    );
    assert_eq!(
        SubtractOperation::transform(
            vec![scalar("a", DataType::Int64), array("b", DataType::Int64)],
            None,
            None
        ),
        Err(DataFrameError::Shape { operation: OperationKind::Subtract })
    );
}

#[test]
fn arithmetic_target_type_hint() {
    let ops = AddOperation::transform(
        vec![scalar("a", DataType::Int64), scalar("b", DataType::Int64)],
        None,
        Some(DataType::Int64),
    )
    .unwrap();
    assert_eq!(ops.len(), 1);
    assert_eq!(
        AddOperation::transform(
            vec![scalar("a", DataType::Int64), scalar("b", DataType::Int64)],
            None,
            Some(DataType::Utf8)
        ),
        Err(DataFrameError::TargetTypeConflict {
            operation: OperationKind::Add,
            requested: DataType::Utf8
        })
    );
}

#[test]
fn bare_data_type_is_scalar_column_type() {
    assert_eq!(ColumnType::from(DataType::Int8), ColumnType::Scalar(DataType::Int8));
    let t: ColumnType = DataType::Utf8.into();
    assert_eq!(t, ColumnType::Scalar(DataType::Utf8));
}

#[test]
fn clone_keeps_column() {
    let c = scalar("a", DataType::Date32);
    assert_eq!(c.clone(), c);
    assert_eq!(Column::new("a".to_owned(), ColumnType::Scalar(DataType::Date32)), c);
}
