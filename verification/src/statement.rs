//! The statement tree that the evaluator walks.

use vstd::prelude::*;
use vstd::std_specs::cmp::PartialEqSpecImpl;
use vstd::string::{StrSliceExecFns, StringExecFns};
use crate::value::Operator;

verus! {

/// An expression: it is evaluated to a value without calling any function.
#[derive(Debug)]
pub enum Expression {
    Nil,
    Bool(bool),
    Int(i32),
    /// A floating-point literal, carried as its IEEE-754 bit pattern.
    Float(u64),
    Str(String),
    List(Vec<Expression>),
    Variable(String),
    Index(Box<Expression>, Box<Expression>),
    Binary(Box<Expression>, Operator, Box<Expression>),
}

/// The mathematical content of an [`Expression`].
pub enum ExpressionView {
    Nil,
    Bool(bool),
    Int(i32),
    Float(u64),
    Str(Seq<char>),
    List(Seq<ExpressionView>),
    Variable(Seq<char>),
    Index(Box<ExpressionView>, Box<ExpressionView>),
    Binary(Box<ExpressionView>, Operator, Box<ExpressionView>),
}

/// The contents of a sequence of expressions, one by one.
pub open spec fn expressions_view(items: Seq<Expression>) -> Seq<ExpressionView>
    decreases items,
{
    Seq::new(
        items.len(),
        |i: int|
            if 0 <= i < items.len() {
                items[i].content()
            } else {
                ExpressionView::Nil
            },
    )
}

impl Expression {
    /// The content of the expression, with its text as characters and its
    /// parts as sequences.
    pub open spec fn content(&self) -> ExpressionView
        decreases self,
    {
        match self {
            Expression::Nil => ExpressionView::Nil,
            Expression::Bool(b) => ExpressionView::Bool(*b),
            Expression::Int(i) => ExpressionView::Int(*i),
            Expression::Float(bits) => ExpressionView::Float(*bits),
            Expression::Str(s) => ExpressionView::Str(s@),
            Expression::List(items) => ExpressionView::List(expressions_view(items@)),
            Expression::Variable(name) => ExpressionView::Variable(name@),
            Expression::Index(target, index) => ExpressionView::Index(
                Box::new(target.content()),
                Box::new(index.content()),
            ),
            Expression::Binary(lhs, op, rhs) => ExpressionView::Binary(
                Box::new(lhs.content()),
                *op,
                Box::new(rhs.content()),
            ),
        }
    }
}

impl View for Expression {
    type V = ExpressionView;

    open spec fn view(&self) -> ExpressionView {
        self.content()
    }
}

/// The characters of each name of a sequence.
pub open spec fn names_view(names: Seq<String>) -> Seq<Seq<char>> {
    Seq::new(names.len(), |i: int| names[i]@)
}

/// Copies a sequence of names.
pub fn duplicate_names(names: &Vec<String>) -> (r: Vec<String>)
    ensures
        names_view(r@) == names_view(names@),
{
    let mut copy: Vec<String> = Vec::new();
    let mut i: usize = 0;
    while i < names.len()
        invariant
            i <= names.len(),
            copy.len() == i,
            forall|j: int| 0 <= j < i ==> copy@[j]@ == names@[j]@,
        decreases names.len() - i,
    {
        copy.push(names[i].clone());
        i = i + 1;
    }
    assert(names_view(copy@) =~= names_view(names@));
    copy
}

/// Whether two sequences of names hold the same names in the same order.
pub fn same_names(a: &Vec<String>, b: &Vec<String>) -> (r: bool)
    ensures
        r == (names_view(a@) == names_view(b@)),
{
    if a.len() != b.len() {
        assert(names_view(a@).len() != names_view(b@).len());
        return false;
    }
    let mut i: usize = 0;
    while i < a.len()
        invariant
            a.len() == b.len(),
            i <= a.len(),
            forall|j: int| 0 <= j < i ==> a@[j]@ == b@[j]@,
        decreases a.len() - i,
    {
        if !(a[i] == b[i]) {
            assert(names_view(a@)[i as int] != names_view(b@)[i as int]);
            return false;
        }
        i = i + 1;
    }
    assert(names_view(a@) =~= names_view(b@));
    true
}

/// Copies a sequence of expressions.
pub fn duplicate_expressions(items: &Vec<Expression>) -> (r: Vec<Expression>)
    ensures
        expressions_view(r@) == expressions_view(items@),
    decreases items,
{
    let mut copy: Vec<Expression> = Vec::new();
    let mut i: usize = 0;
    while i < items.len()
        invariant
            i <= items.len(),
            copy.len() == i,
            forall|j: int| 0 <= j < i ==> copy@[j]@ == items@[j]@,
        decreases items.len() - i,
    {
        copy.push(items[i].duplicate());
        i = i + 1;
    }
    assert(expressions_view(copy@) =~= expressions_view(items@));
    copy
}

/// Whether two sequences of expressions have the same content.
pub fn same_expressions(a: &Vec<Expression>, b: &Vec<Expression>) -> (r: bool)
    ensures
        r == (expressions_view(a@) == expressions_view(b@)),
    decreases a,
{
    if a.len() != b.len() {
        assert(expressions_view(a@).len() != expressions_view(b@).len());
        return false;
    }
    let mut i: usize = 0;
    while i < a.len()
        invariant
            a.len() == b.len(),
            i <= a.len(),
            forall|j: int| 0 <= j < i ==> a@[j]@ == b@[j]@,
        decreases a.len() - i,
    {
        if !a[i].same(&b[i]) {
            assert(expressions_view(a@)[i as int] != expressions_view(b@)[i as int]);
            return false;
        }
        i = i + 1;
    }
    assert(expressions_view(a@) =~= expressions_view(b@));
    true
}

impl Expression {
    /// A copy with the same content.
    pub fn duplicate(&self) -> (r: Expression)
        ensures
            r@ == self@,
        decreases self,
    {
        match self {
            Expression::Nil => Expression::Nil,
            Expression::Bool(b) => Expression::Bool(*b),
            Expression::Int(i) => Expression::Int(*i),
            Expression::Float(bits) => Expression::Float(*bits),
            Expression::Str(s) => Expression::Str(s.clone()),
            Expression::List(items) => {
                assert(decreases_to!(*self => self->List_0));
                Expression::List(duplicate_expressions(items))
            },
            Expression::Variable(name) => Expression::Variable(name.clone()),
            Expression::Index(target, index) => Expression::Index(
                Box::new(target.duplicate()),
                Box::new(index.duplicate()),
            ),
            Expression::Binary(lhs, op, rhs) => Expression::Binary(
                Box::new(lhs.duplicate()),
                *op,
                Box::new(rhs.duplicate()),
            ),
        }
    }

    /// Whether two expressions have the same content.
    pub fn same(&self, other: &Expression) -> (r: bool)
        ensures
            r == (self@ == other@),
        decreases self,
    {
        match (self, other) {
            (Expression::Nil, Expression::Nil) => true,
            (Expression::Bool(a), Expression::Bool(b)) => *a == *b,
            (Expression::Int(a), Expression::Int(b)) => *a == *b,
            (Expression::Float(a), Expression::Float(b)) => *a == *b,
            (Expression::Str(a), Expression::Str(b)) => *a == *b,
            (Expression::List(a), Expression::List(b)) => {
                assert(decreases_to!(*self => self->List_0));
                same_expressions(a, b)
            },
            (Expression::Variable(a), Expression::Variable(b)) => *a == *b,
            (Expression::Index(ta, ia), Expression::Index(tb, ib)) => ta.same(tb) && ia.same(ib),
            (Expression::Binary(la, oa, ra), Expression::Binary(lb, ob, rb)) => {
                la.same(lb) && *oa == *ob && ra.same(rb)
            },
            _ => false,
        }
    }
}

/// What a statement does.
#[derive(Debug)]
pub enum StatementKind {
    /// Binds a name in the innermost frame to the value of an expression.
    Assignment(String, Expression),
    /// Evaluates an expression and drops the value.
    Expression(Expression),
    /// Runs the first block if the condition is true, the second otherwise.
    If(Expression, Vec<Statement>, Vec<Statement>),
    /// Runs the block as long as the condition is true.
    While(Expression, Vec<Statement>),
    /// Defines a function: its name, its parameters, its body.
    Function(String, Vec<String>, Vec<Statement>),
    /// Ends the running function with the value of an expression.
    Return(Expression),
    /// Calls a function directly and binds what it returns to `target`, if
    /// there is one.
    FunctionCall { target: Option<String>, name: String, args: Vec<Expression> },
    /// Loads a native extension and runs the calls of the block.
    Extension(String, Vec<Statement>),
}

/// One parsed unit of a program: what it does and the span of source text,
/// counted in characters, that it was parsed from.
#[derive(Debug)]
pub struct Statement {
    pub start: usize,
    pub end: usize,
    pub kind: StatementKind,
}

/// The mathematical content of a [`StatementKind`].
pub enum StatementKindView {
    Assignment(Seq<char>, ExpressionView),
    Expression(ExpressionView),
    If(ExpressionView, Seq<StatementView>, Seq<StatementView>),
    While(ExpressionView, Seq<StatementView>),
    Function(Seq<char>, Seq<Seq<char>>, Seq<StatementView>),
    Return(ExpressionView),
    FunctionCall { target: Option<Seq<char>>, name: Seq<char>, args: Seq<ExpressionView> },
    Extension(Seq<char>, Seq<StatementView>),
}

/// The mathematical content of a [`Statement`].
pub struct StatementView {
    pub start: usize,
    pub end: usize,
    pub kind: StatementKindView,
}

/// The contents of the statements of a block, one by one.
pub open spec fn block_view(block: Seq<Statement>) -> Seq<StatementView>
    decreases block,
{
    Seq::new(
        block.len(),
        |i: int|
            if 0 <= i < block.len() {
                block[i].content()
            } else {
                arbitrary()
            },
    )
}

/// The characters of a text that may be missing.
pub open spec fn optional_view(target: Option<String>) -> Option<Seq<char>> {
    match target {
        Some(name) => Some(name@),
        None => None,
    }
}

impl StatementKind {
    /// The content of the kind, with its text as characters and its blocks as
    /// sequences.
    pub open spec fn content(&self) -> StatementKindView
        decreases self,
    {
        match self {
            StatementKind::Assignment(name, value) => StatementKindView::Assignment(name@, value@),
            StatementKind::Expression(value) => StatementKindView::Expression(value@),
            StatementKind::If(condition, then_block, else_block) => StatementKindView::If(
                condition@,
                block_view(then_block@),
                block_view(else_block@),
            ),
            StatementKind::While(condition, body) => StatementKindView::While(
                condition@,
                block_view(body@),
            ),
            StatementKind::Function(name, params, body) => StatementKindView::Function(
                name@,
                names_view(params@),
                block_view(body@),
            ),
            StatementKind::Return(value) => StatementKindView::Return(value@),
            StatementKind::FunctionCall { target, name, args } => StatementKindView::FunctionCall {
                target: optional_view(*target),
                name: name@,
                args: expressions_view(args@),
            },
            StatementKind::Extension(library, body) => StatementKindView::Extension(
                library@,
                block_view(body@),
            ),
        }
    }
}

impl Statement {
    /// The content of the statement.
    pub open spec fn content(&self) -> StatementView
        decreases self,
    {
        StatementView { start: self.start, end: self.end, kind: self.kind.content() }
    }
}

impl StatementView {
    /// The characters `start..end` of a source text, if it has them.
    pub open spec fn source_spec(self, source: Seq<char>) -> Option<Seq<char>> {
        if self.start <= self.end <= source.len() {
            Some(source.subrange(self.start as int, self.end as int))
        } else {
            None
        }
    }
}

impl View for StatementKind {
    type V = StatementKindView;

    open spec fn view(&self) -> StatementKindView {
        self.content()
    }
}

impl View for Statement {
    type V = StatementView;

    open spec fn view(&self) -> StatementView {
        self.content()
    }
}

/// Copies a name that may be missing.
pub fn duplicate_target(target: &Option<String>) -> (r: Option<String>)
    ensures
        optional_view(r) == optional_view(*target),
{
    match target {
        Some(name) => Some(name.clone()),
        None => None,
    }
}

/// Whether two names that may be missing are the same.
pub fn same_target(a: &Option<String>, b: &Option<String>) -> (r: bool)
    ensures
        r == (optional_view(*a) == optional_view(*b)),
{
    match (a, b) {
        (Some(x), Some(y)) => *x == *y,
        (None, None) => true,
        _ => false,
    }
}

/// Copies a block.
pub fn duplicate_block(block: &Vec<Statement>) -> (r: Vec<Statement>)
    ensures
        block_view(r@) == block_view(block@),
    decreases block,
{
    let mut copy: Vec<Statement> = Vec::new();
    let mut i: usize = 0;
    while i < block.len()
        invariant
            i <= block.len(),
            copy.len() == i,
            forall|j: int| 0 <= j < i ==> copy@[j]@ == block@[j]@,
        decreases block.len() - i,
    {
        copy.push(block[i].duplicate());
        i = i + 1;
    }
    assert(block_view(copy@) =~= block_view(block@));
    copy
}

/// Whether two blocks have the same content.
pub fn same_block(a: &Vec<Statement>, b: &Vec<Statement>) -> (r: bool)
    ensures
        r == (block_view(a@) == block_view(b@)),
    decreases a,
{
    if a.len() != b.len() {
        assert(block_view(a@).len() != block_view(b@).len());
        return false;
    }
    let mut i: usize = 0;
    while i < a.len()
        invariant
            a.len() == b.len(),
            i <= a.len(),
            forall|j: int| 0 <= j < i ==> a@[j]@ == b@[j]@,
        decreases a.len() - i,
    {
        if !a[i].same(&b[i]) {
            assert(block_view(a@)[i as int] != block_view(b@)[i as int]);
            return false;
        }
        i = i + 1;
    }
    assert(block_view(a@) =~= block_view(b@));
    true
}

impl StatementKind {
    /// A copy with the same content.
    pub fn duplicate(&self) -> (r: StatementKind)
        ensures
            r@ == self@,
        decreases self,
    {
        match self {
            StatementKind::Assignment(name, value) => StatementKind::Assignment(
                name.clone(),
                value.duplicate(),
            ),
            StatementKind::Expression(value) => StatementKind::Expression(value.duplicate()),
            StatementKind::If(condition, then_block, else_block) => {
                assert(decreases_to!(*self => self->If_1));
                assert(decreases_to!(*self => self->If_2));
                StatementKind::If(
                    condition.duplicate(),
                    duplicate_block(then_block),
                    duplicate_block(else_block),
                )
            },
            StatementKind::While(condition, body) => {
                assert(decreases_to!(*self => self->While_1));
                StatementKind::While(condition.duplicate(), duplicate_block(body))
            },
            StatementKind::Function(name, params, body) => {
                assert(decreases_to!(*self => self->Function_2));
                StatementKind::Function(name.clone(), duplicate_names(params), duplicate_block(body))
            },
            StatementKind::Return(value) => StatementKind::Return(value.duplicate()),
            StatementKind::FunctionCall { target, name, args } => StatementKind::FunctionCall {
                target: duplicate_target(target),
                name: name.clone(),
                args: duplicate_expressions(args),
            },
            StatementKind::Extension(library, body) => {
                assert(decreases_to!(*self => self->Extension_1));
                StatementKind::Extension(library.clone(), duplicate_block(body))
            },
        }
    }

    /// Whether two kinds have the same content.
    pub fn same(&self, other: &StatementKind) -> (r: bool)
        ensures
            r == (self@ == other@),
        decreases self,
    {
        match (self, other) {
            (StatementKind::Assignment(na, va), StatementKind::Assignment(nb, vb)) => {
                *na == *nb && va.same(vb)
            },
            (StatementKind::Expression(va), StatementKind::Expression(vb)) => va.same(vb),
            (StatementKind::If(ca, ta, ea), StatementKind::If(cb, tb, eb)) => {
                assert(decreases_to!(*self => self->If_1));
                assert(decreases_to!(*self => self->If_2));
                ca.same(cb) && same_block(ta, tb) && same_block(ea, eb)
            },
            (StatementKind::While(ca, ba), StatementKind::While(cb, bb)) => {
                assert(decreases_to!(*self => self->While_1));
                ca.same(cb) && same_block(ba, bb)
            },
            (StatementKind::Function(na, pa, ba), StatementKind::Function(nb, pb, bb)) => {
                assert(decreases_to!(*self => self->Function_2));
                *na == *nb && same_names(pa, pb) && same_block(ba, bb)
            },
            (StatementKind::Return(va), StatementKind::Return(vb)) => va.same(vb),
            (
                StatementKind::FunctionCall { target: ta, name: na, args: aa },
                StatementKind::FunctionCall { target: tb, name: nb, args: ab },
            ) => same_target(ta, tb) && *na == *nb && same_expressions(aa, ab),
            (StatementKind::Extension(la, ba), StatementKind::Extension(lb, bb)) => {
                assert(decreases_to!(*self => self->Extension_1));
                *la == *lb && same_block(ba, bb)
            },
            _ => false,
        }
    }

    /// Whether the kind is a direct function call.
    pub fn is_function_call(&self) -> (r: bool)
        ensures
            r == (self@ is FunctionCall),
    {
        match self {
            StatementKind::FunctionCall { .. } => true,
            _ => false,
        }
    }
}

impl Statement {
    /// A statement of the given kind, parsed from the characters `start..end`
    /// of the source.
    pub fn new(start: usize, end: usize, kind: StatementKind) -> (r: Statement)
        ensures
            r.start == start,
            r.end == end,
            r.kind == kind,
    {
        Statement { start, end, kind }
    }

    /// The text that the statement was parsed from: the characters
    /// `start..end` of the source, if the source has them.
    pub fn get_source(&self, source: &str) -> (r: Option<String>)
        ensures
            optional_view(r) == self@.source_spec(source@),
    {
        if self.start <= self.end && self.end <= source.unicode_len() {
            Some(String::from_str(source.substring_char(self.start, self.end)))
        } else {
            None
        }
    }

    /// A copy with the same content.
    pub fn duplicate(&self) -> (r: Statement)
        ensures
            r@ == self@,
        decreases self,
    {
        Statement { start: self.start, end: self.end, kind: self.kind.duplicate() }
    }

    /// Whether two statements have the same span and the same content.
    pub fn same(&self, other: &Statement) -> (r: bool)
        ensures
            r == (self@ == other@),
        decreases self,
    {
        self.start == other.start && self.end == other.end && self.kind.same(&other.kind)
    }
}

impl PartialEq for Expression {
    /// Whether two expressions have the same content.
    fn eq(&self, other: &Expression) -> (r: bool) {
        self.same(other)
    }
}

impl PartialEqSpecImpl for Expression {
    open spec fn obeys_eq_spec() -> bool {
        true
    }

    open spec fn eq_spec(&self, other: &Expression) -> bool {
        self@ == other@
    }
}

impl PartialEq for StatementKind {
    /// Whether two kinds have the same content.
    fn eq(&self, other: &StatementKind) -> (r: bool) {
        self.same(other)
    }
}

impl PartialEqSpecImpl for StatementKind {
    open spec fn obeys_eq_spec() -> bool {
        true
    }

    open spec fn eq_spec(&self, other: &StatementKind) -> bool {
        self@ == other@
    }
}

impl PartialEq for Statement {
    /// Whether two statements have the same span and the same content.
    fn eq(&self, other: &Statement) -> (r: bool) {
        self.same(other)
    }
}

impl PartialEqSpecImpl for Statement {
    open spec fn obeys_eq_spec() -> bool {
        true
    }

    open spec fn eq_spec(&self, other: &Statement) -> bool {
        self@ == other@
    }
}

} // verus!
