use schwift::environment::{index_of_int, Environment};
use schwift::error::ErrorKind;
use schwift::statement::Expression;
use schwift::text::{characters, decimal, decimal_of_size, digit, lex_less};
use schwift::value::{Function, NativeHandle, Operator, Type, Value};

fn text(s: &str) -> Value {
    Value::Str(String::from(s))
}

fn list(items: Vec<Value>) -> Value {
    Value::List(items)
}

fn bool_of(r: Result<Value, ErrorKind>) -> bool {
    match r {
        Ok(Value::Bool(b)) => b,
        other => panic!("no boolean: {:?}", other),
    }
}

fn every_type_once() -> Vec<Value> {
    vec![
        Value::Nil,
        Value::Bool(true),
        Value::Int(1),
        Value::Float(0x3ff0_0000_0000_0000),
        text("a"),
        list(vec![]),
        Value::Function(Function { name: String::from("f"), params: vec![], body: vec![], env: 0 }),
        Value::Native(NativeHandle { library: String::from("l"), symbol: String::from("s") }),
    ]
}

#[test]
fn type_names() {
    assert_eq!(Type::Nil.name(), "nil");
    assert_eq!(Type::Bool.name(), "bool");
    assert_eq!(Type::Int.name(), "int");
    assert_eq!(Type::Float.name(), "float");
    assert_eq!(Type::Str.name(), "string");
    assert_eq!(Type::List.name(), "list");
    assert_eq!(Type::Function.name(), "function");
    assert_eq!(Type::Native.name(), "native");
}

#[test]
fn operator_names() {
    assert_eq!(Operator::Add.name(), "Add");
    assert_eq!(Operator::GreaterThanEqual.name(), "GreaterThanEqual");
    assert_eq!(Operator::Or.name(), "Or");
}

#[test]
fn values_have_their_types() {
    let types = [
        Type::Nil,
        Type::Bool,
        Type::Int,
        Type::Float,
        Type::Str,
        Type::List,
        Type::Function,
        Type::Native,
    ];
    for (value, expected) in every_type_once().iter().zip(types.iter()) {
        assert!(value.get_type() == *expected);
    }
}

#[test]
fn only_lists_and_texts_can_be_indexed() {
    for value in every_type_once() {
        let t = value.get_type();
        if t != Type::List && t != Type::Str {
            for index in [0usize, 1, 7] {
                assert!(value.index(index) == Err(ErrorKind::IndexUnindexable(t)));
            }
        }
    }
}

#[test]
fn list_index_succeeds_below_the_length() {
    let items = list(vec![Value::Int(10), Value::Int(20), Value::Int(30)]);
    assert!(items.index(0).unwrap().same(&Value::Int(10)));
    assert!(items.index(2).unwrap().same(&Value::Int(30)));
    assert!(items.index(3) == Err(ErrorKind::IndexOutOfBounds { len: 3, index: 3 }));
    assert!(items.index(5) == Err(ErrorKind::IndexOutOfBounds { len: 3, index: 5 }));
    assert!(list(vec![]).index(0) == Err(ErrorKind::IndexOutOfBounds { len: 0, index: 0 }));
}

#[test]
fn text_index_gives_one_character() {
    let word = text("héllo");
    assert!(word.index(1).unwrap().same(&text("é")));
    assert!(word.index(4).unwrap().same(&text("o")));
    assert!(word.index(5) == Err(ErrorKind::IndexOutOfBounds { len: 5, index: 5 }));
}

#[test]
fn negative_index_is_out_of_bounds() {
    assert_eq!(index_of_int(0), 0);
    assert_eq!(index_of_int(7), 7);
    assert_eq!(index_of_int(-1), usize::MAX);
    assert_eq!(index_of_int(i32::MIN), usize::MAX - (i32::MAX as usize));
    let env = Environment::new();
    let expr = Expression::Index(
        Box::new(Expression::List(vec![Expression::Int(1)])),
        Box::new(Expression::Int(-1)),
    );
    assert!(env.evaluate(0, &expr) == Err(ErrorKind::IndexOutOfBounds { len: 1, index: usize::MAX }));
}

#[test]
fn index_has_to_be_an_integer() {
    let env = Environment::new();
    let expr = Expression::Index(
        Box::new(Expression::List(vec![Expression::Int(1)])),
        Box::new(Expression::Bool(true)),
    );
    assert!(
        env.evaluate(0, &expr)
            == Err(ErrorKind::UnexpectedType { actual: Type::Bool, expected: Type::Int })
    );
}

#[test]
fn integer_arithmetic() {
    assert!(Value::Int(2).binary(Operator::Add, &Value::Int(3)).unwrap().same(&Value::Int(5)));
    assert!(Value::Int(2).binary(Operator::Subtract, &Value::Int(3)).unwrap().same(&Value::Int(-1)));
    assert!(Value::Int(6).binary(Operator::Multiply, &Value::Int(7)).unwrap().same(&Value::Int(42)));
}

#[test]
fn integer_arithmetic_wraps() {
    assert!(Value::Int(i32::MAX)
        .binary(Operator::Add, &Value::Int(1))
        .unwrap()
        .same(&Value::Int(i32::MIN)));
    assert!(Value::Int(i32::MIN)
        .binary(Operator::Subtract, &Value::Int(1))
        .unwrap()
        .same(&Value::Int(i32::MAX)));
    assert!(Value::Int(65536)
        .binary(Operator::Multiply, &Value::Int(65536))
        .unwrap()
        .same(&Value::Int(0)));
}

#[test]
fn add_joins_texts_and_lists() {
    assert!(text("ab").binary(Operator::Add, &text("cd")).unwrap().same(&text("abcd")));
    let joined = list(vec![Value::Int(1)])
        .binary(Operator::Add, &list(vec![text("x"), Value::Nil]))
        .unwrap();
    assert!(joined.same(&list(vec![Value::Int(1), text("x"), Value::Nil])));
}

#[test]
fn equality_compares_content() {
    assert!(bool_of(Value::Int(1).binary(Operator::Equality, &Value::Int(1))));
    assert!(!bool_of(Value::Int(1).binary(Operator::Equality, &Value::Int(2))));
    assert!(bool_of(text("a").binary(Operator::Equality, &text("a"))));
    assert!(bool_of(Value::Nil.binary(Operator::Equality, &Value::Nil)));
    let a = list(vec![Value::Int(1), list(vec![text("x")])]);
    let b = list(vec![Value::Int(1), list(vec![text("x")])]);
    let c = list(vec![Value::Int(1), list(vec![text("y")])]);
    assert!(bool_of(a.binary(Operator::Equality, &b)));
    assert!(!bool_of(a.binary(Operator::Equality, &c)));
    assert!(!bool_of(a.binary(Operator::Equality, &list(vec![Value::Int(1)]))));
}

#[test]
fn orderings_of_integers() {
    let (two, three) = (Value::Int(2), Value::Int(3));
    assert!(bool_of(two.binary(Operator::LessThan, &three)));
    assert!(!bool_of(three.binary(Operator::LessThan, &two)));
    assert!(!bool_of(two.binary(Operator::LessThan, &two)));
    assert!(bool_of(three.binary(Operator::GreaterThan, &two)));
    assert!(bool_of(two.binary(Operator::LessThanEqual, &two)));
    assert!(!bool_of(three.binary(Operator::LessThanEqual, &two)));
    assert!(bool_of(two.binary(Operator::GreaterThanEqual, &two)));
    assert!(!bool_of(two.binary(Operator::GreaterThanEqual, &three)));
}

#[test]
fn orderings_of_texts_are_lexical() {
    assert!(bool_of(text("abc").binary(Operator::LessThan, &text("abd"))));
    assert!(bool_of(text("ab").binary(Operator::LessThan, &text("abc"))));
    assert!(!bool_of(text("abc").binary(Operator::LessThan, &text("ab"))));
    assert!(bool_of(text("b").binary(Operator::GreaterThan, &text("abc"))));
    assert!(bool_of(text("").binary(Operator::LessThanEqual, &text(""))));
    assert!(!bool_of(text("z").binary(Operator::GreaterThanEqual, &text("é"))));
}

#[test]
fn logical_operators() {
    let (yes, no) = (Value::Bool(true), Value::Bool(false));
    assert!(bool_of(yes.binary(Operator::And, &yes)));
    assert!(!bool_of(yes.binary(Operator::And, &no)));
    assert!(bool_of(no.binary(Operator::Or, &yes)));
    assert!(!bool_of(no.binary(Operator::Or, &no)));
}

fn listed(op: Operator, lhs: Type, rhs: Type) -> bool {
    match op {
        Operator::Add => lhs == rhs && (lhs == Type::Int || lhs == Type::Str || lhs == Type::List),
        Operator::Subtract | Operator::Multiply => lhs == Type::Int && rhs == Type::Int,
        Operator::Equality => lhs == rhs,
        Operator::LessThan
        | Operator::GreaterThan
        | Operator::LessThanEqual
        | Operator::GreaterThanEqual => lhs == rhs && (lhs == Type::Int || lhs == Type::Str),
        Operator::And | Operator::Or => lhs == Type::Bool && rhs == Type::Bool,
    }
}

#[test]
fn every_combination_gives_a_value_or_names_itself() {
    let ops = [
        Operator::Add,
        Operator::Subtract,
        Operator::Multiply,
        Operator::Equality,
        Operator::LessThan,
        Operator::GreaterThan,
        Operator::LessThanEqual,
        Operator::GreaterThanEqual,
        Operator::And,
        Operator::Or,
    ];
    for op in ops {
        for lhs in every_type_once() {
            for rhs in every_type_once() {
                let (lt, rt) = (lhs.get_type(), rhs.get_type());
                let result = lhs.binary(op, &rhs);
                assert_eq!(op.dispatch(lt, rt).is_some(), listed(op, lt, rt));
                if listed(op, lt, rt) {
                    assert!(result.unwrap().get_type() == op.dispatch(lt, rt).unwrap());
                } else {
                    assert!(result == Err(ErrorKind::InvalidBinaryExpression(lt, rt, op)));
                }
            }
        }
    }
}

#[test]
fn mixed_operands_are_refused() {
    assert!(
        Value::Int(1).binary(Operator::Add, &text("a"))
            == Err(ErrorKind::InvalidBinaryExpression(Type::Int, Type::Str, Operator::Add))
    );
    assert!(
        Value::Float(0).binary(Operator::Add, &Value::Float(0))
            == Err(ErrorKind::InvalidBinaryExpression(Type::Float, Type::Float, Operator::Add))
    );
}

#[test]
fn copies_have_the_same_content() {
    for value in every_type_once() {
        assert!(value.duplicate().same(&value));
    }
    assert!(!Value::Int(1).same(&Value::Bool(true)));
}

#[test]
fn decimal_numerals() {
    assert_eq!(digit(0), "0");
    assert_eq!(digit(9), "9");
    assert_eq!(decimal(0), "0");
    assert_eq!(decimal(7), "7");
    assert_eq!(decimal(10), "10");
    assert_eq!(decimal(12345), "12345");
    assert_eq!(decimal(u64::MAX), "18446744073709551615");
    assert_eq!(decimal_of_size(4096), "4096");
}

#[test]
fn characters_of_a_text() {
    assert_eq!(characters("aé"), vec!['a', 'é']);
    assert!(characters("").is_empty());
}

#[test]
fn lexical_order() {
    assert!(lex_less("", "a"));
    assert!(!lex_less("", ""));
    assert!(!lex_less("a", ""));
    assert!(lex_less("a", "b"));
    assert!(!lex_less("b", "a"));
    assert!(lex_less("abc", "abd"));
    assert!(lex_less("Z", "a"));
    assert!(!lex_less("same", "same"));
}

#[test]
fn environment_looks_outwards() {
    let mut env = Environment::new();
    let x = String::from("x");
    let y = String::from("y");
    env.assign(0, x.clone(), Value::Int(1));
    let inner = env.push_frame(Some(0));
    assert_eq!(inner, 1);
    env.assign(inner, y.clone(), Value::Int(2));
    assert!(env.lookup(inner, &x).unwrap().same(&Value::Int(1)));
    assert!(env.lookup(inner, &y).unwrap().same(&Value::Int(2)));
    assert!(env.lookup(0, &y).is_none());
    env.assign(inner, x.clone(), Value::Int(3));
    assert!(env.lookup(inner, &x).unwrap().same(&Value::Int(3)));
    assert!(env.lookup(0, &x).unwrap().same(&Value::Int(1)));
    assert!(env.lookup(9, &x).is_none());
    env.assign(9, x.clone(), Value::Int(4));
    assert_eq!(env.len(), 2);
}

#[test]
fn environment_rebinds_in_place() {
    let mut env = Environment::new();
    let x = String::from("x");
    env.assign(0, x.clone(), Value::Int(1));
    env.assign(0, String::from("other"), Value::Int(5));
    env.assign(0, x.clone(), Value::Int(2));
    assert!(env.lookup(0, &x).unwrap().same(&Value::Int(2)));
    assert_eq!(env.frames[0].bindings.len(), 2);
}

#[test]
fn frames_are_destroyed_unless_captured() {
    let mut env = Environment::new();
    let first = env.push_frame(Some(0));
    env.release_frame(first);
    assert_eq!(env.len(), 1);
    let second = env.push_frame(Some(0));
    env.capture(second);
    env.release_frame(second);
    assert_eq!(env.len(), 2);
    env.release_frame(0);
    assert_eq!(env.len(), 2);
    let third = env.push_frame(None);
    env.release_frame(second);
    assert_eq!(env.len(), 3);
    env.release_frame(third);
    assert_eq!(env.len(), 2);
}

#[test]
fn unknown_variable_in_an_expression() {
    let env = Environment::new();
    let expr = Expression::Variable(String::from("ghost"));
    assert!(env.evaluate(0, &expr) == Err(ErrorKind::UnknownVariable(String::from("ghost"))));
}

#[test]
fn first_failure_of_a_list_wins() {
    let env = Environment::new();
    let expr = Expression::List(vec![
        Expression::Int(1),
        Expression::Variable(String::from("first")),
        Expression::Variable(String::from("second")),
    ]);
    assert!(env.evaluate(0, &expr) == Err(ErrorKind::UnknownVariable(String::from("first"))));
    let all = env
        .evaluate_all(0, &vec![Expression::Int(1), Expression::Str(String::from("a"))])
        .unwrap();
    assert_eq!(all.len(), 2);
    assert!(all[1].same(&text("a")));
}
