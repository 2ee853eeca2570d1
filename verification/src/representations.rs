//! Symbolic expressions, which represent contract code.
//!
//! There is no pair type here, since these S-expressions represent code rather than
//! data structures.

use vstd::prelude::*;
use vstd::string::StringExecFns;

verus! {

/// A value that stands in code as it is.
#[derive(Debug, PartialEq, Eq, Hash)]
pub enum Value {
    /// A boolean.
    Bool(bool),
    /// Any other value, by the text that it is written with.
    Literal(String),
}

/// What an expression is.
#[derive(Debug, PartialEq, Eq, Hash)]
pub enum SymbolicExpressionType<const DEVELOPER_MODE: bool> {
    /// A value.
    AtomValue(Value),
    /// A name.
    Atom(String),
    /// A list of expressions.
    List(Vec<SymbolicExpression<DEVELOPER_MODE>>),
}

/// An expression. In developer mode it keeps where in the code it stands; otherwise
/// its span stays zero.
#[derive(Debug, PartialEq, Eq, Hash)]
pub struct SymbolicExpression<const DEVELOPER_MODE: bool> {
    /// What the expression is.
    pub expr: SymbolicExpressionType<DEVELOPER_MODE>,
    /// this id field is used by compiler passes to store information in
    /// maps.
    /// first pass       -> fill out unique ids
    /// ...typing passes -> store information in hashmap according to id.
    ///
    /// this is a fairly standard technique in compiler passes
    pub id: u64,
    /// Where the expression stands in the code.
    pub span: Span,
}

/// A stretch of code.
#[derive(Debug, Clone, Copy, PartialEq, Eq, Hash, Structural)]
pub struct Span {
    /// The line of its first character.
    pub start_line: u32,
    /// The column of its first character.
    pub start_column: u32,
    /// The line of its last character.
    pub end_line: u32,
    /// The column of its last character.
    pub end_column: u32,
}

impl Span {
    /// The span whose lines and columns are all zero.
    pub open spec fn spec_zero() -> Span {
        Span { start_line: 0, start_column: 0, end_line: 0, end_column: 0 }
    }

    /// The span of an expression whose place is not known.
    pub fn zero() -> (span: Span)
        ensures
            span == Self::spec_zero(),
            span.start_line == 0,
            span.start_column == 0,
            span.end_line == 0,
            span.end_column == 0,
    {
        Span { start_line: 0, start_column: 0, end_line: 0, end_column: 0 }
    }
}

/// What an expression is, as a mathematical value.
pub enum ExpressionTypeView {
    /// A boolean.
    Bool(bool),
    /// Any other value, by its text.
    Literal(Seq<char>),
    /// A name.
    Atom(Seq<char>),
    /// A list of expressions.
    List(Seq<ExpressionView>),
}

/// An expression as a mathematical value.
pub struct ExpressionView {
    /// What the expression is.
    pub expr: ExpressionTypeView,
    /// Its number in compiler passes.
    pub id: u64,
    /// Where it stands in the code.
    pub span: Span,
}

impl<const DEVELOPER_MODE: bool> SymbolicExpressionType<DEVELOPER_MODE> {
    /// What the expression is, as a mathematical value.
    pub open spec fn model(self) -> ExpressionTypeView
        decreases self,
    {
        match self {
            SymbolicExpressionType::AtomValue(Value::Bool(b)) => ExpressionTypeView::Bool(b),
            SymbolicExpressionType::AtomValue(Value::Literal(text)) => ExpressionTypeView::Literal(
                text@,
            ),
            SymbolicExpressionType::Atom(name) => ExpressionTypeView::Atom(name@),
            SymbolicExpressionType::List(list) => ExpressionTypeView::List(
                Seq::new(
                    list@.len(),
                    |i: int|
                        if 0 <= i < list@.len() {
                            list@[i].model()
                        } else {
                            arbitrary()
                        },
                ),
            ),
        }
    }

    /// Whether all expressions in it have a zero span unless in developer mode.
    pub open spec fn wf(self) -> bool
        decreases self,
    {
        self matches SymbolicExpressionType::List(list) ==> forall|i: int|
            0 <= i < list@.len() ==> (#[trigger] list@[i]).wf()
    }

    fn copied(&self) -> (copy: Self)
        ensures
            copy.model() == self.model(),
            copy.wf() == self.wf(),
        decreases self,
    {
        match self {
            SymbolicExpressionType::AtomValue(value) => SymbolicExpressionType::AtomValue(
                value.clone(),
            ),
            SymbolicExpressionType::Atom(name) => SymbolicExpressionType::Atom(name.clone()),
            SymbolicExpressionType::List(list) => {
                let mut copies: Vec<SymbolicExpression<DEVELOPER_MODE>> = Vec::new();
                let mut i: usize = 0;
                while i < list.len()
                    invariant
                        i <= list@.len(),
                        *self == SymbolicExpressionType::List(*list),
                        copies@.len() == i,
                        forall|j: int| 0 <= j < i ==> (#[trigger] copies@[j]).model()
                            == list@[j].model(),
                        forall|j: int| 0 <= j < i ==> (#[trigger] copies@[j]).wf() == list@[j].wf(),
                    decreases list@.len() - i,
                {
                    assert(decreases_to!(self => self->List_0));
                    copies.push(list[i].copied());
                    i = i + 1;
                }
                let copy = SymbolicExpressionType::List(copies);
                assert(copy.model()->List_0 =~= self.model()->List_0);
                assert(copy.wf() == self.wf()) by {
                    if copy.wf() {
                        assert forall|j: int| 0 <= j < list@.len() implies (
                        #[trigger] list@[j]).wf() by {
                            assert(copy->List_0@[j].wf());
                        }
                    }
                }
                copy
            },
        }
    }
}

impl Clone for Value {
    fn clone(&self) -> (copy: Value)
        ensures
            copy == *self,
    {
        match self {
            Value::Bool(b) => Value::Bool(*b),
            Value::Literal(text) => Value::Literal(text.clone()),
        }
    }
}

impl<const DEVELOPER_MODE: bool> Clone for SymbolicExpressionType<DEVELOPER_MODE> {
    fn clone(&self) -> (copy: Self)
        ensures
            copy.model() == self.model(),
            copy.wf() == self.wf(),
    {
        self.copied()
    }
}

impl<const DEVELOPER_MODE: bool> Clone for SymbolicExpression<DEVELOPER_MODE> {
    fn clone(&self) -> (copy: Self)
        ensures
            copy.model() == self.model(),
            copy.wf() == self.wf(),
    {
        self.copied()
    }
}

impl Value {
    /// The text that the value is written with.
    pub open spec fn text(self) -> Seq<char> {
        match self {
            Value::Bool(true) => "true"@,
            Value::Bool(false) => "false"@,
            Value::Literal(text) => text@,
        }
    }

    /// Writes the value out.
    pub fn to_text(&self) -> (text: String)
        ensures
            text@ == self.text(),
    {
        match self {
            Value::Bool(b) => {
                if *b {
                    "true".to_owned()
                } else {
                    "false".to_owned()
                }
            },
            Value::Literal(text) => text.clone(),
        }
    }
}

impl<const DEVELOPER_MODE: bool> SymbolicExpression<DEVELOPER_MODE> {
    /// Whether the expression, and all expressions in it, have a zero span unless in
    /// developer mode.
    pub open spec fn wf(self) -> bool
        decreases self,
    {
        &&& !DEVELOPER_MODE ==> self.span == Span::spec_zero()
        &&& self.expr.wf()
    }

    /// The text of an expression: a name or value as it is; a list as its expressions,
    /// each after a blank, with `(` before and ` )` behind them.
    pub open spec fn text(self) -> Seq<char>
        decreases self,
    {
        match self.expr {
            SymbolicExpressionType::List(list) => "("@ + Self::texts(list@) + " )"@,
            SymbolicExpressionType::Atom(value) => value@,
            SymbolicExpressionType::AtomValue(value) => value.text(),
        }
    }

    /// The texts of expressions one after the other, each after a blank.
    pub open spec fn texts(list: Seq<SymbolicExpression<DEVELOPER_MODE>>) -> Seq<char>
        decreases list,
    {
        if list.len() == 0 {
            Seq::empty()
        } else {
            Self::texts(list.drop_last()) + " "@ + list.last().text()
        }
    }

    /// The expression as a mathematical value.
    pub open spec fn model(self) -> ExpressionView
        decreases self,
    {
        ExpressionView { expr: self.expr.model(), id: self.id, span: self.span }
    }

    /// Whether two expressions are made of the same names, values and lists. Neither
    /// their numbers and spans, nor those of the expressions in them, matter.
    pub open spec fn alike<const OTHER_MODE: bool>(
        self,
        other: SymbolicExpression<OTHER_MODE>,
    ) -> bool
        decreases self,
    {
        match (self.expr, other.expr) {
            (SymbolicExpressionType::List(l), SymbolicExpressionType::List(m)) => {
                &&& l@.len() == m@.len()
                &&& forall|i: int| 0 <= i < l@.len() ==> (#[trigger] l@[i]).alike(m@[i])
            },
            (SymbolicExpressionType::Atom(a), SymbolicExpressionType::Atom(b)) => a@ == b@,
            (
                SymbolicExpressionType::AtomValue(Value::Bool(a)),
                SymbolicExpressionType::AtomValue(Value::Bool(b)),
            ) => a == b,
            (
                SymbolicExpressionType::AtomValue(Value::Literal(a)),
                SymbolicExpressionType::AtomValue(Value::Literal(b)),
            ) => a@ == b@,
            _ => false,
        }
    }

    fn copied(&self) -> (copy: Self)
        ensures
            copy.model() == self.model(),
            copy.wf() == self.wf(),
        decreases self,
    {
        SymbolicExpression { expr: self.expr.copied(), id: self.id, span: self.span }
    }

    fn cons() -> (expression: Self)
        ensures
            expression.expr == SymbolicExpressionType::<DEVELOPER_MODE>::AtomValue(
                Value::Bool(false),
            ),
            expression.id == 0,
            expression.span == Span::spec_zero(),
    {
        SymbolicExpression {
            id: 0,
            span: Span::zero(),
            expr: SymbolicExpressionType::AtomValue(Value::Bool(false)),
        }
    }

    /// Notes where the expression stands in the code, if in developer mode.
    pub fn set_span(&mut self, start_line: u32, start_column: u32, end_line: u32, end_column: u32)
        ensures
            final(self).expr == old(self).expr,
            final(self).id == old(self).id,
            final(self).span == (if DEVELOPER_MODE {
                Span { start_line, start_column, end_line, end_column }
            } else {
                old(self).span
            }),
            old(self).wf() ==> final(self).wf(),
    {
        if DEVELOPER_MODE {
            self.span = Span { start_line, start_column, end_line, end_column };
        }
    }

    /// The expression that is the value `val`.
    pub fn atom_value(val: Value) -> (expression: Self)
        ensures
            expression.expr == SymbolicExpressionType::<DEVELOPER_MODE>::AtomValue(val),
            expression.id == 0,
            expression.span == Span::spec_zero(),
            expression.wf(),
    {
        SymbolicExpression { expr: SymbolicExpressionType::AtomValue(val), ..Self::cons() }
    }

    /// The expression that is the name `val`.
    pub fn atom(val: String) -> (expression: Self)
        ensures
            expression.expr == SymbolicExpressionType::<DEVELOPER_MODE>::Atom(val),
            expression.id == 0,
            expression.span == Span::spec_zero(),
            expression.wf(),
    {
        SymbolicExpression { expr: SymbolicExpressionType::Atom(val), ..Self::cons() }
    }

    /// The expression that is the list of the expressions `val`.
    pub fn list(val: Vec<SymbolicExpression<DEVELOPER_MODE>>) -> (expression: Self)
        ensures
            expression.expr == SymbolicExpressionType::List(val),
            expression.id == 0,
            expression.span == Span::spec_zero(),
            (forall|i: int| 0 <= i < val@.len() ==> (#[trigger] val@[i]).wf()) ==> expression.wf(),
    {
        SymbolicExpression { expr: SymbolicExpressionType::List(val), ..Self::cons() }
    }

    // These match functions are used to simplify calling code
    //   areas a lot. There is a frequent code pattern where
    //   a block _expects_ specific symbolic expressions, leading
    //   to a lot of very verbose `if let x = {` expressions.

    /// The expressions of a list, if this is one.
    pub fn match_list(&self) -> (list: Option<&[SymbolicExpression<DEVELOPER_MODE>]>)
        ensures
            match self.expr {
                SymbolicExpressionType::List(expressions) => list matches Some(slice) && slice@
                    == expressions@,
                _ => list is None,
            },
    {
        if let SymbolicExpressionType::List(ref list) = self.expr {
            Some(list.as_slice())
        } else {
            None
        }
    }

    /// The name, if this is one.
    pub fn match_atom(&self) -> (atom: Option<&String>)
        ensures
            match self.expr {
                SymbolicExpressionType::Atom(name) => atom matches Some(value) && *value == name,
                _ => atom is None,
            },
    {
        if let SymbolicExpressionType::Atom(ref value) = self.expr {
            Some(value)
        } else {
            None
        }
    }

    /// The value, if this is one.
    pub fn match_atom_value(&self) -> (atom_value: Option<&Value>)
        ensures
            match self.expr {
                SymbolicExpressionType::AtomValue(value) => atom_value matches Some(v) && *v
                    == value,
                _ => atom_value is None,
            },
    {
        if let SymbolicExpressionType::AtomValue(ref value) = self.expr {
            Some(value)
        } else {
            None
        }
    }

    /// Writes the expression out.
    pub fn to_text(&self) -> (text: String)
        ensures
            text@ == self.text(),
        decreases self,
    {
        match &self.expr {
            SymbolicExpressionType::List(list) => {
                let mut text: String = "(".to_owned();
                let mut i: usize = 0;
                while i < list.len()
                    invariant
                        i <= list@.len(),
                        self.expr == SymbolicExpressionType::List(*list),
                        text@ == "("@ + Self::texts(list@.take(i as int)),
                    decreases list@.len() - i,
                {
                    assert(decreases_to!(self => self.expr->List_0));
                    let item: String = list[i].to_text();
                    text.append(" ");
                    text.append(item.as_str());
                    proof {
                        let taken = list@.take(i + 1);
                        assert(taken.drop_last() == list@.take(i as int));
                        assert(taken.last() == list@[i as int]);
                    }
                    i = i + 1;
                }
                assert(list@.take(list@.len() as int) == list@);
                text.append(" )");
                text
            },
            SymbolicExpressionType::Atom(value) => value.clone(),
            SymbolicExpressionType::AtomValue(value) => value.to_text(),
        }
    }
}

/// The text of a list is made of the texts of its expressions, in their order.
pub proof fn law_texts_are_concatenated<const DEVELOPER_MODE: bool>(
    front: Seq<SymbolicExpression<DEVELOPER_MODE>>,
    back: Seq<SymbolicExpression<DEVELOPER_MODE>>,
)
    ensures
        SymbolicExpression::<DEVELOPER_MODE>::texts(front + back) == SymbolicExpression::<
            DEVELOPER_MODE,
        >::texts(front) + SymbolicExpression::<DEVELOPER_MODE>::texts(back),
    decreases back.len(),
{
    if back.len() == 0 {
        assert(front + back == front);
    } else {
        assert((front + back).drop_last() == front + back.drop_last());
        assert((front + back).last() == back.last());
        law_texts_are_concatenated(front, back.drop_last());
    }
}

/// The text of a name is the name, that of a boolean is `true` or `false`, and that of any
/// other value is the text that the value is written with.
pub proof fn law_atoms_are_written_as_they_are<const DEVELOPER_MODE: bool>(
    expression: SymbolicExpression<DEVELOPER_MODE>,
)
    ensures
        match expression.expr {
            SymbolicExpressionType::Atom(name) => expression.text() == name@,
            SymbolicExpressionType::AtomValue(Value::Bool(b)) => expression.text() == if b {
                "true"@
            } else {
                "false"@
            },
            SymbolicExpressionType::AtomValue(Value::Literal(text)) => expression.text() == text@,
            SymbolicExpressionType::List(_) => true,
        },
        expression.expr matches SymbolicExpressionType::AtomValue(value) ==> value.text()
            == expression.text(),
{
}

/// The text of a list, however long it is, holds the text of each of its expressions, in their
/// order, each after a blank; before them stands `(`, and behind them ` )`.
pub proof fn law_list_text_holds_every_item<const DEVELOPER_MODE: bool>(
    expression: SymbolicExpression<DEVELOPER_MODE>,
)
    requires
        expression.expr is List,
    ensures
        expression.text() == seq!['('] + expression.expr->List_0@.map_values(
            |item: SymbolicExpression<DEVELOPER_MODE>| seq![' '] + item.text(),
        ).flatten() + seq![' ', ')'],
{
    reveal_strlit("(");
    reveal_strlit(" )");
    assert("("@ == seq!['(']);
    assert(" )"@ == seq![' ', ')']);
    lemma_texts_are_flattened(expression.expr->List_0@);
}

/// The texts one after the other are the flattened sequence of them, each with its blank.
proof fn lemma_texts_are_flattened<const DEVELOPER_MODE: bool>(
    list: Seq<SymbolicExpression<DEVELOPER_MODE>>,
)
    ensures
        SymbolicExpression::<DEVELOPER_MODE>::texts(list) == list.map_values(
            |item: SymbolicExpression<DEVELOPER_MODE>| seq![' '] + item.text(),
        ).flatten(),
    decreases list.len(),
{
    let write = |item: SymbolicExpression<DEVELOPER_MODE>| seq![' '] + item.text();
    let written = list.map_values(write);
    if list.len() > 0 {
        reveal_strlit(" ");
        assert(" "@ == seq![' ']);
        lemma_texts_are_flattened(list.drop_last());
        let front = list.drop_last().map_values(write);
        assert(written == front.push(write(list.last())));
        front.lemma_flatten_push(write(list.last()));
    }
}

/// The empty list is written `( )`. A list with one more expression at its end is written as
/// the list is, with a blank and the text of that expression before the closing ` )`.
pub proof fn law_appended_item_is_written_last<const DEVELOPER_MODE: bool>(
    shorter: SymbolicExpression<DEVELOPER_MODE>,
    longer: SymbolicExpression<DEVELOPER_MODE>,
    item: SymbolicExpression<DEVELOPER_MODE>,
)
    requires
        shorter.expr is List,
        longer.expr is List,
        longer.expr->List_0@ == shorter.expr->List_0@.push(item),
    ensures
        shorter.expr->List_0@.len() == 0 ==> shorter.text() == seq!['(', ' ', ')'],
        shorter.text().len() >= 3,
        longer.text() == shorter.text().take(shorter.text().len() - 2) + seq![' '] + item.text()
            + seq![' ', ')'],
{
    let list = shorter.expr->List_0@;
    reveal_strlit("(");
    reveal_strlit(" )");
    reveal_strlit(" ");
    assert("("@ == seq!['(']);
    assert(" )"@ == seq![' ', ')']);
    assert(" "@ == seq![' ']);
    assert(list.push(item).drop_last() == list);
    assert(shorter.text().take(shorter.text().len() - 2) == "("@ + SymbolicExpression::<
        DEVELOPER_MODE,
    >::texts(list));
}

/// Expressions that are alike have the same text, whatever their numbers and spans, and
/// whether in developer mode or not.
pub proof fn law_alike_expressions_have_same_text<const A: bool, const B: bool>(
    a: SymbolicExpression<A>,
    b: SymbolicExpression<B>,
)
    requires
        a.alike(b),
    ensures
        a.text() == b.text(),
    decreases a,
{
    match (a.expr, b.expr) {
        (SymbolicExpressionType::List(l), SymbolicExpressionType::List(m)) => {
            assert forall|i: int| 0 <= i < l@.len() implies (#[trigger] l@[i]).text()
                == m@[i].text() by {
                law_alike_expressions_have_same_text(l@[i], m@[i]);
            }
            lemma_same_texts(l@, m@);
        },
        _ => {},
    }
}

/// Expressions that are the same, as mathematical values, have the same number and span, and
/// are the same name, the same value, or lists of expressions that are the same one by one. So
/// nothing is lost in a clone.
pub proof fn law_same_expressions_agree_in_everything<const A: bool, const B: bool>(
    a: SymbolicExpression<A>,
    b: SymbolicExpression<B>,
)
    requires
        a.model() == b.model(),
    ensures
        a.id == b.id,
        a.span == b.span,
        match (a.expr, b.expr) {
            (SymbolicExpressionType::List(l), SymbolicExpressionType::List(m)) => {
                &&& l@.len() == m@.len()
                &&& forall|i: int|
                    0 <= i < l@.len() ==> (#[trigger] l@[i]).model() == m@[i].model()
            },
            (SymbolicExpressionType::Atom(x), SymbolicExpressionType::Atom(y)) => x@ == y@,
            (
                SymbolicExpressionType::AtomValue(Value::Bool(x)),
                SymbolicExpressionType::AtomValue(Value::Bool(y)),
            ) => x == y,
            (
                SymbolicExpressionType::AtomValue(Value::Literal(x)),
                SymbolicExpressionType::AtomValue(Value::Literal(y)),
            ) => x@ == y@,
            _ => false,
        },
{
    if let (SymbolicExpressionType::List(l), SymbolicExpressionType::List(m)) = (a.expr, b.expr) {
        let models = a.expr.model()->List_0;
        assert(models.len() == l@.len() && models.len() == m@.len());
        assert forall|i: int| 0 <= i < l@.len() implies (#[trigger] l@[i]).model()
            == m@[i].model() by {
            assert(models[i] == l@[i].model());
            assert(b.expr.model()->List_0[i] == m@[i].model());
        }
    }
}

/// An expression is well-formed if and only if its own span is zero unless in developer mode,
/// and, if it is a list, all its expressions are well-formed.
pub proof fn law_spans_are_kept_in_developer_mode_only<const DEVELOPER_MODE: bool>(
    expression: SymbolicExpression<DEVELOPER_MODE>,
)
    ensures
        expression.wf() <==> {
            &&& DEVELOPER_MODE || {
                &&& expression.span.start_line == 0
                &&& expression.span.start_column == 0
                &&& expression.span.end_line == 0
                &&& expression.span.end_column == 0
            }
            &&& expression.expr matches SymbolicExpressionType::List(list) ==> forall|i: int|
                0 <= i < list@.len() ==> (#[trigger] list@[i]).wf()
        },
{
}

/// Expressions that are the same, as mathematical values, are alike. So a clone is alike to
/// what it was made from.
pub proof fn law_same_expressions_are_alike<const A: bool, const B: bool>(
    a: SymbolicExpression<A>,
    b: SymbolicExpression<B>,
)
    requires
        a.model() == b.model(),
    ensures
        a.alike(b),
    decreases a,
{
    match (a.expr, b.expr) {
        (SymbolicExpressionType::List(l), SymbolicExpressionType::List(m)) => {
            let models = a.expr.model()->List_0;
            assert(models.len() == l@.len() && models.len() == m@.len());
            assert forall|i: int| 0 <= i < l@.len() implies (#[trigger] l@[i]).alike(m@[i]) by {
                assert(models[i] == l@[i].model());
                assert(b.expr.model()->List_0[i] == m@[i].model());
                law_same_expressions_are_alike(l@[i], m@[i]);
            }
        },
        _ => {},
    }
}

proof fn lemma_same_texts<const A: bool, const B: bool>(
    l: Seq<SymbolicExpression<A>>,
    m: Seq<SymbolicExpression<B>>,
)
    requires
        l.len() == m.len(),
        forall|i: int| 0 <= i < l.len() ==> (#[trigger] l[i]).text() == m[i].text(),
    ensures
        SymbolicExpression::<A>::texts(l) == SymbolicExpression::<B>::texts(m),
    decreases l.len(),
{
    if l.len() > 0 {
        lemma_same_texts(l.drop_last(), m.drop_last());
        assert(l.last() == l[l.len() - 1]);
    }
}

} // verus!
