//! The values of the language, the tags that classify them, and the binary
//! operators with the table of operand types that each one accepts.

use vstd::prelude::*;
use vstd::std_specs::cmp::PartialEqSpecImpl;
use vstd::string::{StrSliceExecFns, StringExecFns};
use crate::error::{ErrorKind, ErrorKindView, SwResult};
use crate::statement::{
    block_view, duplicate_block, duplicate_names, names_view, same_block, same_names, Statement,
    StatementView,
};
use crate::text::{lex_less, lex_less_spec};

verus! {

/// The tag of a value. Tags serve diagnostics and operator dispatch; no value
/// is stored as a tag.
#[derive(Clone, Copy, Debug, PartialEq, Eq, Structural)]
pub enum Type {
    Nil,
    Bool,
    Int,
    Float,
    Str,
    List,
    Function,
    Native,
}

/// The binary operators.
#[derive(Clone, Copy, Debug, PartialEq, Eq, Structural)]
pub enum Operator {
    Add,
    Subtract,
    Multiply,
    Equality,
    LessThan,
    GreaterThan,
    LessThanEqual,
    GreaterThanEqual,
    And,
    Or,
}

impl Type {
    /// The name under which a tag appears in messages.
    pub open spec fn name_spec(self) -> Seq<char> {
        match self {
            Type::Nil => "nil"@,
            Type::Bool => "bool"@,
            Type::Int => "int"@,
            Type::Float => "float"@,
            Type::Str => "string"@,
            Type::List => "list"@,
            Type::Function => "function"@,
            Type::Native => "native"@,
        }
    }

    /// The name under which a tag appears in messages.
    pub fn name(&self) -> (s: &'static str)
        ensures
            s@ == self.name_spec(),
    {
        match self {
            Type::Nil => "nil",
            Type::Bool => "bool",
            Type::Int => "int",
            Type::Float => "float",
            Type::Str => "string",
            Type::List => "list",
            Type::Function => "function",
            Type::Native => "native",
        }
    }
}

impl Operator {
    /// The name under which an operator appears in messages.
    pub open spec fn name_spec(self) -> Seq<char> {
        match self {
            Operator::Add => "Add"@,
            Operator::Subtract => "Subtract"@,
            Operator::Multiply => "Multiply"@,
            Operator::Equality => "Equality"@,
            Operator::LessThan => "LessThan"@,
            Operator::GreaterThan => "GreaterThan"@,
            Operator::LessThanEqual => "LessThanEqual"@,
            Operator::GreaterThanEqual => "GreaterThanEqual"@,
            Operator::And => "And"@,
            Operator::Or => "Or"@,
        }
    }

    /// The name under which an operator appears in messages.
    pub fn name(&self) -> (s: &'static str)
        ensures
            s@ == self.name_spec(),
    {
        match self {
            Operator::Add => "Add",
            Operator::Subtract => "Subtract",
            Operator::Multiply => "Multiply",
            Operator::Equality => "Equality",
            Operator::LessThan => "LessThan",
            Operator::GreaterThan => "GreaterThan",
            Operator::LessThanEqual => "LessThanEqual",
            Operator::GreaterThanEqual => "GreaterThanEqual",
            Operator::And => "And",
            Operator::Or => "Or",
        }
    }
}

/// A user-defined function: its name, the names of its parameters, its body,
/// and the frame of the environment in which it was defined.
#[derive(Debug)]
pub struct Function {
    pub name: String,
    pub params: Vec<String>,
    pub body: Vec<Statement>,
    pub env: usize,
}

/// An entry point of a native extension: the library that exports it and the
/// name under which it does.
#[derive(Debug)]
pub struct NativeHandle {
    pub library: String,
    pub symbol: String,
}

/// A value of the language.
#[derive(Debug)]
pub enum Value {
    /// The absence of a value.
    Nil,
    Bool(bool),
    Int(i32),
    /// A floating-point number, carried as its IEEE-754 bit pattern. No
    /// operator reads the pattern.
    Float(u64),
    Str(String),
    List(Vec<Value>),
    Function(Function),
    Native(NativeHandle),
}

/// The mathematical content of a [`Value`].
pub enum ValueView {
    Nil,
    Bool(bool),
    Int(i32),
    Float(u64),
    Str(Seq<char>),
    List(Seq<ValueView>),
    Function { name: Seq<char>, params: Seq<Seq<char>>, body: Seq<StatementView>, env: usize },
    Native { library: Seq<char>, symbol: Seq<char> },
}

/// The contents of a sequence of values, one by one.
pub open spec fn values_view(items: Seq<Value>) -> Seq<ValueView>
    decreases items,
{
    Seq::new(
        items.len(),
        |i: int|
            if 0 <= i < items.len() {
                items[i].content()
            } else {
                ValueView::Nil
            },
    )
}

impl Value {
    /// The content of the value, with its text as characters and its items
    /// as a sequence.
    pub open spec fn content(&self) -> ValueView
        decreases self,
    {
        match self {
            Value::Nil => ValueView::Nil,
            Value::Bool(b) => ValueView::Bool(*b),
            Value::Int(i) => ValueView::Int(*i),
            Value::Float(bits) => ValueView::Float(*bits),
            Value::Str(s) => ValueView::Str(s@),
            Value::List(items) => ValueView::List(values_view(items@)),
            Value::Function(f) => ValueView::Function {
                name: f.name@,
                params: names_view(f.params@),
                body: block_view(f.body@),
                env: f.env,
            },
            Value::Native(handle) => ValueView::Native {
                library: handle.library@,
                symbol: handle.symbol@,
            },
        }
    }
}

impl View for Value {
    type V = ValueView;

    open spec fn view(&self) -> ValueView {
        self.content()
    }
}

/// The content of what an operation on values returns.
pub open spec fn result_view(r: SwResult<Value>) -> Result<ValueView, ErrorKindView> {
    match r {
        Ok(value) => Ok(value@),
        Err(kind) => Err(kind@),
    }
}

impl ValueView {
    /// The tag of the value.
    pub open spec fn type_of(self) -> Type {
        match self {
            ValueView::Nil => Type::Nil,
            ValueView::Bool(_) => Type::Bool,
            ValueView::Int(_) => Type::Int,
            ValueView::Float(_) => Type::Float,
            ValueView::Str(_) => Type::Str,
            ValueView::List(_) => Type::List,
            ValueView::Function { .. } => Type::Function,
            ValueView::Native { .. } => Type::Native,
        }
    }

    /// What indexing the value at `index` gives. Only a list and a text have
    /// items: those of a list are its values, those of a text are its
    /// characters, each as a text of its own.
    pub open spec fn index_spec(self, index: usize) -> Result<ValueView, ErrorKindView> {
        match self {
            ValueView::List(items) => if index < items.len() {
                Ok(items[index as int])
            } else {
                Err(ErrorKindView::IndexOutOfBounds { len: items.len() as usize, index })
            },
            ValueView::Str(text) => if index < text.len() {
                Ok(ValueView::Str(text.subrange(index as int, index + 1)))
            } else {
                Err(ErrorKindView::IndexOutOfBounds { len: text.len() as usize, index })
            },
            _ => Err(ErrorKindView::IndexUnindexable(self.type_of())),
        }
    }
}

/// Copies a sequence of values.
pub fn duplicate_values(items: &Vec<Value>) -> (r: Vec<Value>)
    ensures
        values_view(r@) == values_view(items@),
    decreases items,
{
    let mut copy: Vec<Value> = Vec::new();
    let mut i: usize = 0;
    while i < items.len()
        invariant
            i <= items.len(),
            copy.len() == i,
            forall|j: int| 0 <= j < i ==> copy@[j]@ == items@[j]@,
        decreases items.len() - i,
    {
        copy.push(items[i].duplicate());
        i = i + 1;
    }
    assert(values_view(copy@) =~= values_view(items@));
    copy
}

/// Whether two sequences of values have the same content.
pub fn same_values(a: &Vec<Value>, b: &Vec<Value>) -> (r: bool)
    ensures
        r == (values_view(a@) == values_view(b@)),
    decreases a,
{
    if a.len() != b.len() {
        assert(values_view(a@).len() != values_view(b@).len());
        return false;
    }
    let mut i: usize = 0;
    while i < a.len()
        invariant
            a.len() == b.len(),
            i <= a.len(),
            forall|j: int| 0 <= j < i ==> a@[j]@ == b@[j]@,
        decreases a.len() - i,
    {
        if !a[i].same(&b[i]) {
            assert(values_view(a@)[i as int] != values_view(b@)[i as int]);
            return false;
        }
        i = i + 1;
    }
    assert(values_view(a@) =~= values_view(b@));
    true
}

impl Value {
    /// A copy with the same content.
    pub fn duplicate(&self) -> (r: Value)
        ensures
            r@ == self@,
        decreases self,
    {
        match self {
            Value::Nil => Value::Nil,
            Value::Bool(b) => Value::Bool(*b),
            Value::Int(i) => Value::Int(*i),
            Value::Float(bits) => Value::Float(*bits),
            Value::Str(s) => Value::Str(s.clone()),
            Value::List(items) => {
                assert(decreases_to!(*self => self->List_0));
                Value::List(duplicate_values(items))
            },
            Value::Function(f) => Value::Function(
                Function {
                    name: f.name.clone(),
                    params: duplicate_names(&f.params),
                    body: duplicate_block(&f.body),
                    env: f.env,
                },
            ),
            Value::Native(handle) => Value::Native(
                NativeHandle { library: handle.library.clone(), symbol: handle.symbol.clone() },
            ),
        }
    }

    /// Whether two values have the same content.
    pub fn same(&self, other: &Value) -> (r: bool)
        ensures
            r == (self@ == other@),
        decreases self,
    {
        match (self, other) {
            (Value::Nil, Value::Nil) => true,
            (Value::Bool(a), Value::Bool(b)) => *a == *b,
            (Value::Int(a), Value::Int(b)) => *a == *b,
            (Value::Float(a), Value::Float(b)) => *a == *b,
            (Value::Str(a), Value::Str(b)) => *a == *b,
            (Value::List(a), Value::List(b)) => {
                assert(decreases_to!(*self => self->List_0));
                same_values(a, b)
            },
            (Value::Function(f), Value::Function(g)) => {
                f.name == g.name && same_names(&f.params, &g.params) && same_block(&f.body, &g.body)
                    && f.env == g.env
            },
            (Value::Native(g), Value::Native(h)) => g.library == h.library && g.symbol == h.symbol,
            _ => false,
        }
    }

    /// The tag of the value.
    pub fn get_type(&self) -> (t: Type)
        ensures
            t == self@.type_of(),
    {
        match self {
            Value::Nil => Type::Nil,
            Value::Bool(_) => Type::Bool,
            Value::Int(_) => Type::Int,
            Value::Float(_) => Type::Float,
            Value::Str(_) => Type::Str,
            Value::List(_) => Type::List,
            Value::Function(_) => Type::Function,
            Value::Native(_) => Type::Native,
        }
    }

    /// The item at `index`: a value of a list, or a character of a text as a
    /// text of its own. Any other value has no items, and an index at or
    /// beyond the length is refused.
    pub fn index(&self, index: usize) -> (r: SwResult<Value>)
        ensures
            result_view(r) == self@.index_spec(index),
    {
        match self {
            Value::List(items) => {
                if index < items.len() {
                    Ok(items[index].duplicate())
                } else {
                    Err(ErrorKind::IndexOutOfBounds { len: items.len(), index })
                }
            },
            Value::Str(text) => {
                let len = text.as_str().unicode_len();
                if index < len {
                    Ok(Value::Str(String::from_str(text.as_str().substring_char(index, index + 1))))
                } else {
                    Err(ErrorKind::IndexOutOfBounds { len, index })
                }
            },
            _ => Err(ErrorKind::IndexUnindexable(self.get_type())),
        }
    }
}

impl Operator {
    /// The table of the binary operators: the tag of what an operator gives
    /// for operands of the two tags, or nothing where the combination is not
    /// part of the language. Nothing is converted: apart from what is listed
    /// here no combination is accepted.
    ///
    /// - `Add` takes two integers, two texts or two lists, and gives the same.
    /// - `Subtract` and `Multiply` take two integers and give an integer.
    /// - `Equality` takes two operands of one tag and gives a boolean.
    /// - The four orderings take two integers or two texts and give a boolean.
    /// - `And` and `Or` take two booleans and give a boolean.
    pub open spec fn result_type(self, lhs: Type, rhs: Type) -> Option<Type> {
        match self {
            Operator::Add => if lhs == rhs && (lhs is Int || lhs is Str || lhs is List) {
                Some(lhs)
            } else {
                None
            },
            Operator::Subtract | Operator::Multiply => if lhs is Int && rhs is Int {
                Some(Type::Int)
            } else {
                None
            },
            Operator::Equality => if lhs == rhs {
                Some(Type::Bool)
            } else {
                None
            },
            Operator::LessThan
            | Operator::GreaterThan
            | Operator::LessThanEqual
            | Operator::GreaterThanEqual => if lhs == rhs && (lhs is Int || lhs is Str) {
                Some(Type::Bool)
            } else {
                None
            },
            Operator::And | Operator::Or => if lhs is Bool && rhs is Bool {
                Some(Type::Bool)
            } else {
                None
            },
        }
    }

    /// Looks the operator up in the table for operands of the two tags.
    pub fn dispatch(&self, lhs: Type, rhs: Type) -> (r: Option<Type>)
        ensures
            r == self.result_type(lhs, rhs),
    {
        match self {
            Operator::Add => match (lhs, rhs) {
                (Type::Int, Type::Int) => Some(Type::Int),
                (Type::Str, Type::Str) => Some(Type::Str),
                (Type::List, Type::List) => Some(Type::List),
                _ => None,
            },
            Operator::Subtract | Operator::Multiply => match (lhs, rhs) {
                (Type::Int, Type::Int) => Some(Type::Int),
                _ => None,
            },
            Operator::Equality => if lhs == rhs {
                Some(Type::Bool)
            } else {
                None
            },
            Operator::LessThan
            | Operator::GreaterThan
            | Operator::LessThanEqual
            | Operator::GreaterThanEqual => match (lhs, rhs) {
                (Type::Int, Type::Int) => Some(Type::Bool),
                (Type::Str, Type::Str) => Some(Type::Bool),
                _ => None,
            },
            Operator::And | Operator::Or => match (lhs, rhs) {
                (Type::Bool, Type::Bool) => Some(Type::Bool),
                _ => None,
            },
        }
    }
}

/// Whether `lhs` comes strictly before `rhs`: by number for two integers, in
/// lexical order for two texts.
pub open spec fn less_spec(lhs: ValueView, rhs: ValueView) -> bool {
    match (lhs, rhs) {
        (ValueView::Int(a), ValueView::Int(b)) => a < b,
        (ValueView::Str(a), ValueView::Str(b)) => lex_less_spec(a, b),
        _ => false,
    }
}

/// What an operator computes from two operands that the table accepts.
/// Integer arithmetic wraps around at the bounds of 32 bits.
pub open spec fn apply_spec(lhs: ValueView, op: Operator, rhs: ValueView) -> ValueView {
    match op {
        Operator::Add => match (lhs, rhs) {
            (ValueView::Int(a), ValueView::Int(b)) => ValueView::Int(a.wrapping_add(b)),
            (ValueView::Str(a), ValueView::Str(b)) => ValueView::Str(a + b),
            (ValueView::List(a), ValueView::List(b)) => ValueView::List(a + b),
            _ => ValueView::Nil,
        },
        Operator::Subtract => match (lhs, rhs) {
            (ValueView::Int(a), ValueView::Int(b)) => ValueView::Int(a.wrapping_sub(b)),
            _ => ValueView::Nil,
        },
        Operator::Multiply => match (lhs, rhs) {
            (ValueView::Int(a), ValueView::Int(b)) => ValueView::Int(a.wrapping_mul(b)),
            _ => ValueView::Nil,
        },
        Operator::Equality => ValueView::Bool(lhs == rhs),
        Operator::LessThan => ValueView::Bool(less_spec(lhs, rhs)),
        Operator::GreaterThan => ValueView::Bool(less_spec(rhs, lhs)),
        Operator::LessThanEqual => ValueView::Bool(!less_spec(rhs, lhs)),
        Operator::GreaterThanEqual => ValueView::Bool(!less_spec(lhs, rhs)),
        Operator::And => match (lhs, rhs) {
            (ValueView::Bool(a), ValueView::Bool(b)) => ValueView::Bool(a && b),
            _ => ValueView::Nil,
        },
        Operator::Or => match (lhs, rhs) {
            (ValueView::Bool(a), ValueView::Bool(b)) => ValueView::Bool(a || b),
            _ => ValueView::Nil,
        },
    }
}

/// What a binary expression gives: what the operator computes where the
/// table accepts the tags of the operands, and otherwise the failure that
/// names the two tags and the operator.
pub open spec fn binary_spec(lhs: ValueView, op: Operator, rhs: ValueView) -> Result<
    ValueView,
    ErrorKindView,
> {
    if op.result_type(lhs.type_of(), rhs.type_of()) is Some {
        Ok(apply_spec(lhs, op, rhs))
    } else {
        Err(ErrorKindView::InvalidBinaryExpression(lhs.type_of(), rhs.type_of(), op))
    }
}

impl Value {
    /// Whether the value comes strictly before `rhs`: by number for two
    /// integers, in lexical order for two texts, and never otherwise.
    pub fn less(&self, rhs: &Value) -> (r: bool)
        ensures
            r == less_spec(self@, rhs@),
    {
        match (self, rhs) {
            (Value::Int(a), Value::Int(b)) => *a < *b,
            (Value::Str(a), Value::Str(b)) => lex_less(a.as_str(), b.as_str()),
            _ => false,
        }
    }

    /// Applies a binary operator to this value and `rhs`.
    pub fn binary(&self, op: Operator, rhs: &Value) -> (r: SwResult<Value>)
        ensures
            result_view(r) == binary_spec(self@, op, rhs@),
    {
        if op.dispatch(self.get_type(), rhs.get_type()).is_none() {
            return Err(ErrorKind::InvalidBinaryExpression(self.get_type(), rhs.get_type(), op));
        }
        let value = match op {
            Operator::Add => match (self, rhs) {
                (Value::Int(a), Value::Int(b)) => Value::Int(a.wrapping_add(*b)),
                (Value::Str(a), Value::Str(b)) => {
                    let mut text = a.clone();
                    text.append(b.as_str());
                    Value::Str(text)
                },
                (Value::List(a), Value::List(b)) => {
                    let mut items = duplicate_values(a);
                    let mut tail = duplicate_values(b);
                    items.append(&mut tail);
                    assert(values_view(items@) =~= values_view(a@) + values_view(b@));
                    Value::List(items)
                },
                _ => Value::Nil,
            },
            Operator::Subtract => match (self, rhs) {
                (Value::Int(a), Value::Int(b)) => Value::Int(a.wrapping_sub(*b)),
                _ => Value::Nil,
            },
            Operator::Multiply => match (self, rhs) {
                (Value::Int(a), Value::Int(b)) => Value::Int(a.wrapping_mul(*b)),
                _ => Value::Nil,
            },
            Operator::Equality => Value::Bool(self.same(rhs)),
            Operator::LessThan => Value::Bool(self.less(rhs)),
            Operator::GreaterThan => Value::Bool(rhs.less(self)),
            Operator::LessThanEqual => Value::Bool(!rhs.less(self)),
            Operator::GreaterThanEqual => Value::Bool(!self.less(rhs)),
            Operator::And => match (self, rhs) {
                (Value::Bool(a), Value::Bool(b)) => Value::Bool(*a && *b),
                _ => Value::Nil,
            },
            Operator::Or => match (self, rhs) {
                (Value::Bool(a), Value::Bool(b)) => Value::Bool(*a || *b),
                _ => Value::Nil,
            },
        };
        Ok(value)
    }
}

/// A value that is neither a list nor a text cannot be indexed: whatever the
/// index, the failure names the tag of the value.
pub proof fn law_unindexable(value: ValueView, index: usize)
    requires
        !(value is List),
        !(value is Str),
    ensures
        value.index_spec(index) == Err::<ValueView, ErrorKindView>(
            ErrorKindView::IndexUnindexable(value.type_of()),
        ),
{
}

/// Indexing a list succeeds exactly for the indices below its length, and
/// then gives the item at the index; any other index is refused with the
/// length of the list and the index as they are.
pub proof fn law_list_index(items: Seq<ValueView>, index: usize)
    requires
        items.len() <= usize::MAX,
    ensures
        ValueView::List(items).index_spec(index) is Ok <==> 0 <= index < items.len(),
        index < items.len() ==> ValueView::List(items).index_spec(index) == Ok::<
            ValueView,
            ErrorKindView,
        >(items[index as int]),
        index >= items.len() ==> ValueView::List(items).index_spec(index) == Err::<
            ValueView,
            ErrorKindView,
        >(ErrorKindView::IndexOutOfBounds { len: items.len() as usize, index }),
{
}

/// Indexing a text succeeds exactly for the indices below its length in
/// characters, and then gives the character at the index; any other index is
/// refused with the length of the text and the index as they are.
pub proof fn law_text_index(text: Seq<char>, index: usize)
    requires
        text.len() <= usize::MAX,
    ensures
        ValueView::Str(text).index_spec(index) is Ok <==> 0 <= index < text.len(),
        index < text.len() ==> ValueView::Str(text).index_spec(index) == Ok::<
            ValueView,
            ErrorKindView,
        >(ValueView::Str(seq![text[index as int]])),
        index >= text.len() ==> ValueView::Str(text).index_spec(index) == Err::<
            ValueView,
            ErrorKindView,
        >(ErrorKindView::IndexOutOfBounds { len: text.len() as usize, index }),
{
    if index < text.len() {
        assert(text.subrange(index as int, index + 1) =~= seq![text[index as int]]);
    }
}

/// The dispatch of a binary expression depends on the tags of its operands
/// and on the operator alone: for a combination that the table accepts it
/// gives one value, of the tag that the table names, and for any other the
/// failure that names exactly the two tags and the operator.
pub proof fn law_dispatch_total(lhs: ValueView, op: Operator, rhs: ValueView)
    ensures
        match op.result_type(lhs.type_of(), rhs.type_of()) {
            Some(tag) => binary_spec(lhs, op, rhs) matches Ok(value) && value.type_of() == tag,
            None => binary_spec(lhs, op, rhs) == Err::<ValueView, ErrorKindView>(
                ErrorKindView::InvalidBinaryExpression(lhs.type_of(), rhs.type_of(), op),
            ),
        },
{
}

/// Whether a binary expression succeeds is the same for any two pairs of
/// operands with the same tags.
pub proof fn law_dispatch_by_type(
    lhs: ValueView,
    rhs: ValueView,
    other_lhs: ValueView,
    other_rhs: ValueView,
    op: Operator,
)
    requires
        lhs.type_of() == other_lhs.type_of(),
        rhs.type_of() == other_rhs.type_of(),
    ensures
        binary_spec(lhs, op, rhs) is Ok <==> binary_spec(other_lhs, op, other_rhs) is Ok,
        binary_spec(lhs, op, rhs) is Err ==> binary_spec(lhs, op, rhs) == binary_spec(
            other_lhs,
            op,
            other_rhs,
        ),
{
}

impl PartialEq for Value {
    /// Whether two values have the same content.
    fn eq(&self, other: &Value) -> (r: bool) {
        self.same(other)
    }
}

impl PartialEqSpecImpl for Value {
    open spec fn obeys_eq_spec() -> bool {
        true
    }

    open spec fn eq_spec(&self, other: &Value) -> bool {
        self@ == other@
    }
}

} // verus!
