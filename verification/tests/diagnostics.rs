use schwift::environment::Environment;
use schwift::error::{panic_message, Error, ErrorKind};
use schwift::grammar::ParseError;
use schwift::microverse::{call_only, handshake, native_result, register};
use schwift::quotes::{random_quote, QUOTES};
use schwift::statement::{Expression, Statement, StatementKind};
use schwift::value::{Operator, Type, Value};

fn place() -> Statement {
    Statement::new(0, 1, StatementKind::Expression(Expression::Nil))
}

#[test]
fn new_keeps_kind_and_place() {
    let error = Error::new(ErrorKind::DylibReturnedNil, place());
    assert!(error.kind == ErrorKind::DylibReturnedNil);
    assert!(error.place.same(&place()));
}

#[test]
fn unknown_variable_message() {
    let kind = ErrorKind::UnknownVariable(String::from("x"));
    assert_eq!(kind.message(), "There's no x in this universe, Morty!");
}

#[test]
fn index_out_of_bounds_message() {
    let kind = ErrorKind::IndexOutOfBounds { len: 3, index: 5 };
    assert_eq!(
        kind.message(),
        "This isn't your mom's wine bottle Morty, you can't just keep asking for more, there's not that much here! You want 5, but your cob only has 3 kernels on it!"
    );
}

#[test]
fn invalid_binary_expression_message() {
    let kind = ErrorKind::InvalidBinaryExpression(Type::Int, Type::Str, Operator::Add);
    assert_eq!(
        kind.message(),
        "It's like apples and space worms Morty! You can't Add a int and a string!"
    );
}

#[test]
fn every_message() {
    let n = |s: &str| String::from(s);
    assert_eq!(
        ErrorKind::NoReturn(n("f")).message(),
        "Morty, your function has to return a value! f just runs and dies like an animal!"
    );
    assert_eq!(
        ErrorKind::IndexUnindexable(Type::Bool).message(),
        "I'll try and say this slowly Morty. You can't index that. It's a bool"
    );
    let parse = ParseError { line: 1, column: 22, offset: 300, expected: vec![n("("), n("[a-z]")] };
    assert_eq!(
        ErrorKind::SyntaxError(parse).message(),
        "If you're going to start trying to construct sub-programs in your programs Morty, you'd better make sure you're careful! ParseError { line: 1, column: 22, offset: 300, expected: {\"(\", \"[a-z]\"} }"
    );
    assert_eq!(
        ErrorKind::UnexpectedType { actual: Type::Int, expected: Type::List }.message(),
        "I asked for a list, not a int Morty."
    );
    assert_eq!(
        ErrorKind::InvalidArguments(n("f"), 2, 1).message(),
        "I'm confused Morty, a minute ago you said that f takes 2 paramaters, but you just tried to give it 1. WHICH IS IT MORTY?"
    );
    assert_eq!(
        ErrorKind::NonFunctionCallInDylib(place()).message(),
        "Is this a miniverse, or a microverse, or a teeny-verse? All I know is you fucked up."
    );
    assert_eq!(
        ErrorKind::IncompatibleAbi(3).message(),
        format!(
            "That's an older code, Morty and it does not check out. That microverse can only be run by schwift 3, but this is {}",
            schwift::LIBSCHWIFT_ABI_COMPAT
        )
    );
    assert_eq!(
        ErrorKind::MissingAbiCompat { library: n("libx.so") }.message(),
        "Wait, wait, I'm confused. Just a second ago, you said that libx.so was a microverse, but when I looked there, I didn't know what I was looking at."
    );
    assert_eq!(
        ErrorKind::DylibReturnedNil.message(),
        "I told you how a Microverse works Morty. At what point exactly did you stop listening?"
    );
}

#[test]
fn io_message_shows_the_cause() {
    let cause = std::io::Error::new(std::io::ErrorKind::NotFound, "gone");
    let shown = format!("{:?}", cause);
    let kind = ErrorKind::from(cause);
    assert_eq!(
        kind.message(),
        format!("Looks like we're having a comm-burp-unications problem Morty: {}", shown)
    );
    assert_eq!(
        kind.message_with("why"),
        "Looks like we're having a comm-burp-unications problem Morty: why"
    );
    assert_eq!(Error::new(kind, place()).message().len(), 62 + shown.len());
}

#[test]
fn parse_error_without_expectations() {
    let parse = ParseError { line: 0, column: 0, offset: 0, expected: vec![] };
    assert_eq!(parse.describe(), "ParseError { line: 0, column: 0, offset: 0, expected: {} }");
    assert!(parse.duplicate().same(&parse));
    let other = ParseError { line: 0, column: 0, offset: 0, expected: vec![String::from("x")] };
    assert!(!parse.same(&other));
    assert_eq!(other.describe(), "ParseError { line: 0, column: 0, offset: 0, expected: {\"x\"} }");
}

#[test]
fn failures_of_the_same_kind_compare_by_payload() {
    let n = |s: &str| String::from(s);
    assert!(ErrorKind::UnknownVariable(n("a")) == ErrorKind::UnknownVariable(n("a")));
    assert!(ErrorKind::UnknownVariable(n("a")) != ErrorKind::UnknownVariable(n("b")));
    assert!(ErrorKind::UnknownVariable(n("a")) != ErrorKind::NoReturn(n("a")));
    assert!(ErrorKind::NoReturn(n("a")) == ErrorKind::NoReturn(n("a")));
    assert!(ErrorKind::IndexUnindexable(Type::Int) == ErrorKind::IndexUnindexable(Type::Int));
    assert!(ErrorKind::IndexUnindexable(Type::Int) != ErrorKind::IndexUnindexable(Type::Nil));
    assert!(
        ErrorKind::IndexOutOfBounds { len: 3, index: 5 }
            != ErrorKind::IndexOutOfBounds { len: 5, index: 3 }
    );
    assert!(
        ErrorKind::UnexpectedType { actual: Type::Int, expected: Type::Str }
            != ErrorKind::UnexpectedType { actual: Type::Str, expected: Type::Int }
    );
    assert!(
        ErrorKind::InvalidBinaryExpression(Type::Int, Type::Str, Operator::Add)
            != ErrorKind::InvalidBinaryExpression(Type::Int, Type::Str, Operator::Subtract)
    );
    assert!(ErrorKind::InvalidArguments(n("f"), 2, 1) == ErrorKind::InvalidArguments(n("f"), 2, 1));
    assert!(ErrorKind::InvalidArguments(n("f"), 2, 1) != ErrorKind::InvalidArguments(n("f"), 1, 2));
    assert!(ErrorKind::IncompatibleAbi(3) != ErrorKind::IncompatibleAbi(4));
    assert!(
        ErrorKind::MissingAbiCompat { library: n("a") }
            == ErrorKind::MissingAbiCompat { library: n("a") }
    );
    assert!(ErrorKind::DylibReturnedNil == ErrorKind::DylibReturnedNil);
    assert!(ErrorKind::DylibReturnedNil != ErrorKind::IncompatibleAbi(0));
    assert!(ErrorKind::NonFunctionCallInDylib(place()) == ErrorKind::NonFunctionCallInDylib(place()));
    let moved = Statement::new(1, 2, StatementKind::Expression(Expression::Nil));
    assert!(ErrorKind::NonFunctionCallInDylib(place()) != ErrorKind::NonFunctionCallInDylib(moved));
}

#[test]
fn operating_system_failures_compare_equal() {
    let a = ErrorKind::IOError(std::io::Error::new(std::io::ErrorKind::NotFound, "a"));
    let b = ErrorKind::IOError(std::io::Error::new(std::io::ErrorKind::PermissionDenied, "b"));
    assert!(a == b);
    assert!(a != ErrorKind::DylibReturnedNil);
}

#[test]
fn report_is_laid_out_as_a_block() {
    assert_eq!(
        panic_message("x[5]", "It broke.", "-Rick"),
        "\n    You made a Rickdiculous mistake:\n\n    x[5]\n    It broke.\n\n    -Rick\n\n    "
    );
}

#[test]
fn full_report_quotes_the_source_and_ends_with_a_quote() {
    let source = "x = [1,2,3]\nx[5]\n";
    let at = Statement::new(12, 16, StatementKind::Expression(Expression::Nil));
    let error = Error::new(ErrorKind::UnknownVariable(String::from("x")), at);
    let text = error.full_panic_message(source).unwrap();
    let head = "\n    You made a Rickdiculous mistake:\n\n    x[5]\n    There's no x in this universe, Morty!\n\n    ";
    assert!(text.starts_with(head));
    let rest = &text[head.len()..];
    assert!(QUOTES.iter().any(|quote| rest == format!("{}\n\n    ", quote)));
}

#[test]
fn full_report_needs_the_span() {
    let at = Statement::new(3, 99, StatementKind::Expression(Expression::Nil));
    let error = Error::new(ErrorKind::DylibReturnedNil, at);
    assert!(error.full_panic_message("short").is_none());
    let backwards = Statement::new(4, 2, StatementKind::Expression(Expression::Nil));
    assert!(backwards.get_source("long enough").is_none());
}

#[test]
fn source_is_cut_by_characters() {
    let at = Statement::new(1, 3, StatementKind::Expression(Expression::Nil));
    assert_eq!(at.get_source("héllo").unwrap(), "él");
    let all = Statement::new(0, 5, StatementKind::Expression(Expression::Nil));
    assert_eq!(all.get_source("héllo").unwrap(), "héllo");
    let none = Statement::new(5, 5, StatementKind::Expression(Expression::Nil));
    assert_eq!(none.get_source("héllo").unwrap(), "");
}

#[test]
fn random_quote_is_from_the_pool() {
    assert_eq!(QUOTES.len(), 9);
    for _ in 0..50 {
        let quote = random_quote();
        assert!(QUOTES.contains(&quote));
    }
}

#[test]
fn handshake_accepts_only_the_host_version() {
    let library = String::from("libx.so");
    assert!(handshake(&library, 4, Some(4)) == Ok(()));
    assert!(handshake(&library, 4, Some(3)) == Err(ErrorKind::IncompatibleAbi(3)));
    assert!(handshake(&library, 4, Some(5)) == Err(ErrorKind::IncompatibleAbi(5)));
    assert!(
        handshake(&library, 4, None)
            == Err(ErrorKind::MissingAbiCompat { library: String::from("libx.so") })
    );
}

#[test]
fn native_null_is_not_the_absence_value() {
    assert!(native_result(None) == Err(ErrorKind::DylibReturnedNil));
    assert!(native_result(Some(Value::Nil)).unwrap().same(&Value::Nil));
    assert!(native_result(Some(Value::Int(3))).unwrap().same(&Value::Int(3)));
}

#[test]
fn only_calls_may_stand_in_an_extension() {
    let n = |s: &str| String::from(s);
    let call = Statement::new(
        0,
        1,
        StatementKind::FunctionCall { target: None, name: n("f"), args: vec![] },
    );
    assert!(call_only(&call) == Ok(()));
    let others = vec![
        StatementKind::Assignment(n("x"), Expression::Nil),
        StatementKind::Expression(Expression::Nil),
        StatementKind::If(Expression::Bool(true), vec![], vec![]),
        StatementKind::While(Expression::Bool(false), vec![]),
        StatementKind::Function(n("f"), vec![], vec![]),
        StatementKind::Return(Expression::Nil),
        StatementKind::Extension(n("lib"), vec![]),
    ];
    for kind in others {
        let statement = Statement::new(2, 3, kind);
        assert!(!statement.kind.is_function_call());
        assert!(
            call_only(&statement) == Err(ErrorKind::NonFunctionCallInDylib(statement.duplicate()))
        );
    }
}

#[test]
fn registration_binds_every_entry_point() {
    let mut env = Environment::new();
    env.assign(0, String::from("kept"), Value::Int(1));
    register(&mut env, &String::from("lib.so"), &vec![String::from("a"), String::from("b")]);
    for symbol in ["a", "b"] {
        match env.lookup(0, &String::from(symbol)) {
            Some(Value::Native(handle)) => {
                assert_eq!(handle.library, "lib.so");
                assert_eq!(handle.symbol, symbol);
            },
            other => panic!("not registered: {:?}", other),
        }
    }
    assert!(env.lookup(0, &String::from("kept")).unwrap().same(&Value::Int(1)));
    assert!(env.lookup(0, &String::from("c")).is_none());
}

#[test]
fn statements_compare_by_span_and_content() {
    let n = |s: &str| String::from(s);
    let body = vec![Statement::new(3, 4, StatementKind::Return(Expression::Variable(n("a"))))];
    let a = Statement::new(0, 9, StatementKind::Function(n("f"), vec![n("a")], body));
    assert!(a.duplicate().same(&a));
    let b = Statement::new(0, 9, StatementKind::Function(n("f"), vec![n("b")], vec![]));
    assert!(!a.same(&b));
    let c = Statement::new(0, 8, a.kind.duplicate());
    assert!(!a.same(&c));
    let x = Expression::Binary(
        Box::new(Expression::Int(1)),
        Operator::Add,
        Box::new(Expression::List(vec![Expression::Float(7), Expression::Str(n("s"))])),
    );
    assert!(x.duplicate().same(&x));
    assert!(!x.same(&Expression::Int(1)));
}
