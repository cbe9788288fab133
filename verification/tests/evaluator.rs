use schwift::error::ErrorKind;
use schwift::machine::{Action, Machine, Response};
use schwift::statement::{Expression, Statement, StatementKind};
use schwift::value::{Operator, Type, Value};

fn name(text: &str) -> String {
    String::from(text)
}

fn num(i: i32) -> Expression {
    Expression::Int(i)
}

fn var(text: &str) -> Expression {
    Expression::Variable(name(text))
}

fn stmt(start: usize, end: usize, kind: StatementKind) -> Statement {
    Statement::new(start, end, kind)
}

fn call(start: usize, end: usize, target: Option<&str>, function: &str, args: Vec<Expression>) -> Statement {
    stmt(
        start,
        end,
        StatementKind::FunctionCall { target: target.map(name), name: name(function), args },
    )
}

fn binary(lhs: Expression, op: Operator, rhs: Expression) -> Expression {
    Expression::Binary(Box::new(lhs), op, Box::new(rhs))
}

fn failure(action: Action) -> (ErrorKind, Statement) {
    match action {
        Action::Failed(error) => (error.kind, error.place),
        other => panic!("the run did not fail: {:?}", other),
    }
}

#[test]
fn index_beyond_the_list_fails_at_the_indexing_statement() {
    let assign = stmt(
        0,
        11,
        StatementKind::Assignment(name("x"), Expression::List(vec![num(1), num(2), num(3)])),
    );
    let index = stmt(
        13,
        17,
        StatementKind::Expression(Expression::Index(Box::new(var("x")), Box::new(num(5)))),
    );
    let mut machine = Machine::new(vec![assign, index.duplicate()], 1);
    let (kind, place) = failure(machine.run(100));
    assert!(kind == ErrorKind::IndexOutOfBounds { len: 3, index: 5 });
    assert!(place.same(&index));
    assert!(machine.is_done());
}

#[test]
fn call_with_too_few_arguments_fails() {
    let body = vec![stmt(
        9,
        19,
        StatementKind::Return(binary(var("a"), Operator::Add, var("b"))),
    )];
    let define = stmt(0, 21, StatementKind::Function(name("f"), vec![name("a"), name("b")], body));
    let site = call(22, 26, None, "f", vec![num(1)]);
    let mut machine = Machine::new(vec![define, site.duplicate()], 1);
    let (kind, place) = failure(machine.run(100));
    assert!(kind == ErrorKind::InvalidArguments(name("f"), 2, 1));
    assert!(place.same(&site));
}

#[test]
fn call_with_wrong_count_fails_before_the_arguments_are_evaluated() {
    let body = vec![stmt(0, 1, StatementKind::Return(var("a")))];
    let define = stmt(0, 1, StatementKind::Function(name("f"), vec![name("a")], body));
    let site = call(2, 3, None, "f", vec![var("missing"), var("gone")]);
    let mut machine = Machine::new(vec![define, site], 1);
    let (kind, _) = failure(machine.run(100));
    assert!(kind == ErrorKind::InvalidArguments(name("f"), 1, 2));
}

#[test]
fn call_binds_the_returned_value() {
    let body = vec![stmt(
        0,
        1,
        StatementKind::Return(binary(var("a"), Operator::Add, var("b"))),
    )];
    let define = stmt(0, 1, StatementKind::Function(name("f"), vec![name("a"), name("b")], body));
    let site = call(2, 3, Some("r"), "f", vec![num(40), num(2)]);
    let mut machine = Machine::new(vec![define, site], 1);
    assert!(matches!(machine.run(100), Action::Halted));
    assert!(machine.global(&name("r")).unwrap().same(&Value::Int(42)));
    assert!(machine.global(&name("a")).is_none());
    assert_eq!(machine.env.len(), 1);
}

#[test]
fn function_without_return_fails_at_the_call() {
    let body = vec![stmt(0, 1, StatementKind::Assignment(name("y"), num(1)))];
    let define = stmt(0, 5, StatementKind::Function(name("g"), vec![], body));
    let site = call(6, 9, None, "g", vec![]);
    let mut machine = Machine::new(vec![define, site.duplicate()], 1);
    let (kind, place) = failure(machine.run(100));
    assert!(kind == ErrorKind::NoReturn(name("g")));
    assert!(place.same(&site));
}

#[test]
fn return_inside_a_branch_ends_the_function() {
    let then_block = vec![stmt(0, 1, StatementKind::Return(num(1)))];
    let body = vec![
        stmt(0, 1, StatementKind::If(Expression::Bool(true), then_block, vec![])),
        stmt(0, 1, StatementKind::Expression(var("never"))),
    ];
    let define = stmt(0, 1, StatementKind::Function(name("h"), vec![], body));
    let site = call(2, 3, Some("r"), "h", vec![]);
    let mut machine = Machine::new(vec![define, site], 1);
    assert!(matches!(machine.run(100), Action::Halted));
    assert!(machine.global(&name("r")).unwrap().same(&Value::Int(1)));
}

#[test]
fn loop_counts_up() {
    let body = vec![stmt(
        0,
        1,
        StatementKind::Assignment(name("i"), binary(var("i"), Operator::Add, num(1))),
    )];
    let program = vec![
        stmt(0, 1, StatementKind::Assignment(name("i"), num(0))),
        stmt(
            2,
            3,
            StatementKind::While(binary(var("i"), Operator::LessThan, num(5)), body),
        ),
    ];
    let mut machine = Machine::new(program, 1);
    assert!(matches!(machine.run(1000), Action::Halted));
    assert!(machine.global(&name("i")).unwrap().same(&Value::Int(5)));
}

#[test]
fn run_stops_when_the_budget_is_spent() {
    let program = vec![stmt(0, 1, StatementKind::While(Expression::Bool(true), vec![]))];
    let mut machine = Machine::new(program, 1);
    assert!(matches!(machine.run(50), Action::Continue));
    assert!(!machine.is_done());
}

#[test]
fn unknown_variable_fails() {
    let use_it = stmt(0, 1, StatementKind::Expression(var("nobody")));
    let mut machine = Machine::new(vec![use_it.duplicate()], 1);
    let (kind, place) = failure(machine.run(10));
    assert!(kind == ErrorKind::UnknownVariable(name("nobody")));
    assert!(place.same(&use_it));
}

#[test]
fn condition_has_to_be_a_boolean() {
    let program = vec![stmt(0, 1, StatementKind::If(num(1), vec![], vec![]))];
    let mut machine = Machine::new(program, 1);
    let (kind, _) = failure(machine.run(10));
    assert!(kind == ErrorKind::UnexpectedType { actual: Type::Int, expected: Type::Bool });
}

#[test]
fn calling_a_number_fails() {
    let program = vec![
        stmt(0, 1, StatementKind::Assignment(name("n"), num(1))),
        call(2, 3, None, "n", vec![]),
    ];
    let mut machine = Machine::new(program, 1);
    let (kind, _) = failure(machine.run(10));
    assert!(kind == ErrorKind::UnexpectedType { actual: Type::Int, expected: Type::Function });
}

#[test]
fn failure_inside_a_function_is_placed_at_the_inner_statement() {
    let inner = stmt(7, 9, StatementKind::Expression(var("nobody")));
    let define = stmt(0, 10, StatementKind::Function(name("f"), vec![], vec![inner.duplicate()]));
    let site = call(11, 14, None, "f", vec![]);
    let mut machine = Machine::new(vec![define, site], 1);
    let (kind, place) = failure(machine.run(100));
    assert!(kind == ErrorKind::UnknownVariable(name("nobody")));
    assert!(place.same(&inner));
}

#[test]
fn function_sees_the_frame_it_was_defined_in() {
    let body = vec![stmt(0, 1, StatementKind::Return(var("outer")))];
    let program = vec![
        stmt(0, 1, StatementKind::Assignment(name("outer"), num(7))),
        stmt(0, 1, StatementKind::Function(name("f"), vec![], body)),
        call(0, 1, Some("r"), "f", vec![]),
    ];
    let mut machine = Machine::new(program, 1);
    assert!(matches!(machine.run(100), Action::Halted));
    assert!(machine.global(&name("r")).unwrap().same(&Value::Int(7)));
}

fn extension_program() -> (Statement, Statement) {
    let inner = call(20, 27, Some("r"), "twice", vec![num(21)]);
    let block = stmt(
        0,
        30,
        StatementKind::Extension(name("libdemo.so"), vec![inner.duplicate()]),
    );
    (block, inner)
}

#[test]
fn extension_with_the_host_version_is_loaded_and_called() {
    let (block, _) = extension_program();
    let mut machine = Machine::new(vec![block], 4);
    assert!(matches!(machine.run(10), Action::Open(library) if library == "libdemo.so"));
    assert!(matches!(machine.step(), Action::Waiting));
    assert!(matches!(machine.resume(Response::Opened), Action::LookupAbi(_)));
    assert!(matches!(machine.resume(Response::Abi(Some(4))), Action::Enumerate(_)));
    assert!(matches!(
        machine.resume(Response::Exports(vec![name("twice")])),
        Action::Continue
    ));
    assert!(machine.global(&name("twice")).unwrap().get_type() == Type::Native);
    assert_eq!(machine.libraries, vec![name("libdemo.so")]);
    match machine.run(10) {
        Action::CallNative { library, symbol, args } => {
            assert_eq!(library, "libdemo.so");
            assert_eq!(symbol, "twice");
            assert_eq!(args.len(), 1);
            assert!(args[0].same(&Value::Int(21)));
        },
        other => panic!("no native call: {:?}", other),
    }
    assert!(matches!(
        machine.resume(Response::Returned(Some(Value::Int(42)))),
        Action::Continue
    ));
    assert!(matches!(machine.run(10), Action::Halted));
    assert!(machine.global(&name("r")).unwrap().same(&Value::Int(42)));
}

#[test]
fn extension_of_another_version_is_refused_and_registers_nothing() {
    let (block, _) = extension_program();
    let mut machine = Machine::new(vec![block.duplicate()], 4);
    assert!(matches!(machine.run(10), Action::Open(_)));
    assert!(matches!(machine.resume(Response::Opened), Action::LookupAbi(_)));
    assert!(matches!(
        machine.resume(Response::Abi(Some(3))),
        Action::Release(library) if library == "libdemo.so"
    ));
    let (kind, place) = failure(machine.step());
    assert!(kind == ErrorKind::IncompatibleAbi(3));
    assert!(place.same(&block));
    assert!(machine.global(&name("twice")).is_none());
    assert!(machine.libraries.is_empty());
    assert_eq!(machine.env.frames[0].bindings.len(), 0);
    assert!(matches!(machine.step(), Action::Halted));
}

#[test]
fn extension_of_a_newer_version_is_refused_too() {
    let (block, _) = extension_program();
    let mut machine = Machine::new(vec![block], 4);
    machine.run(10);
    machine.resume(Response::Opened);
    assert!(matches!(machine.resume(Response::Abi(Some(5))), Action::Release(_)));
    let (kind, _) = failure(machine.step());
    assert!(kind == ErrorKind::IncompatibleAbi(5));
}

#[test]
fn extension_without_marker_is_refused() {
    let (block, _) = extension_program();
    let mut machine = Machine::new(vec![block], 4);
    machine.run(10);
    machine.resume(Response::Opened);
    assert!(matches!(machine.resume(Response::Abi(None)), Action::Release(_)));
    let (kind, _) = failure(machine.step());
    assert!(kind == ErrorKind::MissingAbiCompat { library: name("libdemo.so") });
}

#[test]
fn extension_that_cannot_be_opened_fails_with_the_cause() {
    let (block, _) = extension_program();
    let mut machine = Machine::new(vec![block], 4);
    machine.run(10);
    let cause = std::io::Error::new(std::io::ErrorKind::NotFound, "no such library");
    let (kind, _) = failure(machine.resume(Response::OpenFailed(cause)));
    assert!(matches!(kind, ErrorKind::IOError(ref err) if err.kind() == std::io::ErrorKind::NotFound));
}

#[test]
fn native_call_that_returns_null_fails() {
    let (block, inner) = extension_program();
    let mut machine = Machine::new(vec![block], 4);
    machine.run(10);
    machine.resume(Response::Opened);
    machine.resume(Response::Abi(Some(4)));
    machine.resume(Response::Exports(vec![name("twice")]));
    assert!(matches!(machine.run(10), Action::CallNative { .. }));
    let (kind, place) = failure(machine.resume(Response::Returned(None)));
    assert!(kind == ErrorKind::DylibReturnedNil);
    assert!(place.same(&inner));
}

#[test]
fn native_call_may_return_the_absence_value() {
    let (block, _) = extension_program();
    let mut machine = Machine::new(vec![block], 4);
    machine.run(10);
    machine.resume(Response::Opened);
    machine.resume(Response::Abi(Some(4)));
    machine.resume(Response::Exports(vec![name("twice")]));
    machine.run(10);
    assert!(matches!(
        machine.resume(Response::Returned(Some(Value::Nil))),
        Action::Continue
    ));
    assert!(matches!(machine.run(10), Action::Halted));
    assert!(machine.global(&name("r")).unwrap().same(&Value::Nil));
}

#[test]
fn statement_other_than_a_call_in_an_extension_fails() {
    let inner = stmt(5, 9, StatementKind::Assignment(name("x"), num(1)));
    let block = stmt(0, 10, StatementKind::Extension(name("libdemo.so"), vec![inner.duplicate()]));
    let mut machine = Machine::new(vec![block], 4);
    machine.run(10);
    machine.resume(Response::Opened);
    machine.resume(Response::Abi(Some(4)));
    machine.resume(Response::Exports(vec![]));
    let (kind, place) = failure(machine.run(10));
    assert!(kind == ErrorKind::NonFunctionCallInDylib(inner.duplicate()));
    assert!(place.same(&inner));
}

#[test]
fn answer_that_is_not_awaited_changes_nothing() {
    let (block, _) = extension_program();
    let mut machine = Machine::new(vec![block], 4);
    assert!(matches!(machine.resume(Response::Opened), Action::Continue));
    machine.run(10);
    assert!(matches!(machine.resume(Response::Abi(Some(4))), Action::Waiting));
    assert!(matches!(machine.resume(Response::Opened), Action::LookupAbi(_)));
}
