use stacks_core::representations::{Span, SymbolicExpression, SymbolicExpressionType, Value};

type Expression = SymbolicExpression<true>;
type PlainExpression = SymbolicExpression<false>;

fn name(text: &str) -> Expression {
    Expression::atom(text.to_string())
}

fn number(text: &str) -> Expression {
    Expression::atom_value(Value::Literal(text.to_string()))
}

#[test]
fn zero_span() {
    let zero = Span { start_line: 0, start_column: 0, end_line: 0, end_column: 0 };
    assert_eq!(Span::zero(), zero);
}

#[test]
fn constructors_start_with_id_zero_and_zero_span() {
    let expressions = vec![
        name("x"),
        number("u1"),
        Expression::atom_value(Value::Bool(true)),
        Expression::list(vec![name("x")]),
    ];
    for expression in expressions {
        assert_eq!(expression.id, 0);
        assert_eq!(expression.span, Span::zero());
    }
}

#[test]
fn each_expression_matches_its_own_kind_only() {
    let atom = name("x");
    assert_eq!(atom.match_atom(), Some(&"x".to_string()));
    assert_eq!(atom.match_atom_value(), None);
    assert_eq!(atom.match_list(), None);

    let value = Expression::atom_value(Value::Bool(true));
    assert_eq!(value.match_atom(), None);
    assert_eq!(value.match_atom_value(), Some(&Value::Bool(true)));
    assert_eq!(value.match_list(), None);

    let list = Expression::list(vec![name("x"), number("1")]);
    assert_eq!(list.match_atom(), None);
    assert_eq!(list.match_atom_value(), None);
    assert_eq!(list.match_list().unwrap(), &[name("x"), number("1")]);
    assert_eq!(Expression::list(vec![]).match_list().unwrap().len(), 0);
}

#[test]
fn span_is_kept_in_developer_mode() {
    let mut expression = name("x");
    expression.id = 7;
    expression.set_span(1, 2, 3, 4);
    let span = Span { start_line: 1, start_column: 2, end_line: 3, end_column: 4 };
    assert_eq!(expression.span, span);
    assert_eq!(expression.id, 7);
    assert_eq!(expression.expr, SymbolicExpressionType::Atom("x".to_string()));
}

#[test]
fn span_is_not_kept_otherwise() {
    let mut expression = PlainExpression::atom("x".to_string());
    expression.set_span(1, 2, 3, 4);
    assert_eq!(expression, PlainExpression::atom("x".to_string()));
    assert_eq!(expression.span, Span::zero());
}

#[test]
fn text_of_expressions() {
    assert_eq!(name("foo").to_text(), "foo");
    assert_eq!(number("u12").to_text(), "u12");
    assert_eq!(Expression::atom_value(Value::Bool(true)).to_text(), "true");
    assert_eq!(Expression::atom_value(Value::Bool(false)).to_text(), "false");
    assert_eq!(Expression::list(vec![]).to_text(), "( )");
    assert_eq!(Expression::list(vec![name("f"), number("1")]).to_text(), "( f 1 )");
    let nested = Expression::list(vec![
        name("+"),
        number("1"),
        Expression::list(vec![name("f"), name("x")]),
        Expression::list(vec![]),
    ]);
    assert_eq!(nested.to_text(), "( + 1 ( f x ) ( ) )");
}

#[test]
fn clones_are_equal_and_read_the_same() {
    let mut inner = Expression::list(vec![name("f"), number("3")]);
    inner.set_span(1, 1, 1, 5);
    inner.id = 9;
    let mut expression =
        Expression::list(vec![inner, name("y"), Expression::atom_value(Value::Bool(false))]);
    expression.set_span(1, 0, 2, 0);
    let copy = expression.clone();
    assert_eq!(copy, expression);
    assert_eq!(copy.to_text(), expression.to_text());
    assert_eq!(copy.expr.clone(), expression.expr);
    assert_eq!(copy.match_list().unwrap()[0].id, 9);
}

#[test]
fn text_does_not_depend_on_ids_spans_or_mode() {
    let plain = PlainExpression::list(vec![
        PlainExpression::atom("f".to_string()),
        PlainExpression::list(vec![PlainExpression::atom_value(Value::Bool(true))]),
    ]);
    let mut inner = Expression::list(vec![Expression::atom_value(Value::Bool(true))]);
    inner.id = 4;
    inner.set_span(2, 0, 2, 8);
    let mut spanned = Expression::list(vec![name("f"), inner]);
    spanned.id = 3;
    assert_eq!(plain.to_text(), "( f ( true ) )");
    assert_eq!(spanned.to_text(), plain.to_text());
}
