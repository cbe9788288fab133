//! The failures that the interpreter reports, and the statement that each one
//! is reported against.

use vstd::prelude::*;
use vstd::std_specs::cmp::PartialEqSpecImpl;
use vstd::std_specs::convert::FromSpecImpl;
use vstd::string::StringExecFns;
use crate::grammar::{ParseError, ParseErrorView};
use crate::quotes::{is_quote, random_quote};
use crate::statement::{Statement, StatementView};
use crate::text::{decimal, decimal_of_size, decimal_spec};
use crate::value::{Operator, Type};

verus! {

/// The failure of an operating-system call, as std reports it.
#[verifier::external_type_specification]
#[verifier::external_body]
pub struct ExIoError(std::io::Error);

/// What an operation gives before its failure has a place.
pub type SwResult<T> = Result<T, ErrorKind>;

/// What an operation gives once its failure has a place.
pub type SwErResult<T> = Result<T, Error>;

/// What went wrong, without the place where it did.
#[derive(Debug)]
pub enum ErrorKind {
    UnknownVariable(String),
    IndexUnindexable(Type),
    SyntaxError(ParseError),
    IndexOutOfBounds { len: usize, index: usize },
    IOError(std::io::Error),
    UnexpectedType { actual: Type, expected: Type },
    InvalidBinaryExpression(Type, Type, Operator),
    InvalidArguments(String, usize, usize),
    NoReturn(String),
    NonFunctionCallInDylib(Statement),
    MissingAbiCompat { library: String },
    IncompatibleAbi(u32),
    DylibReturnedNil,
}

/// The mathematical content of an [`ErrorKind`]. The cause of an
/// operating-system failure is kept as std reports it.
pub enum ErrorKindView {
    UnknownVariable(Seq<char>),
    IndexUnindexable(Type),
    SyntaxError(ParseErrorView),
    IndexOutOfBounds { len: usize, index: usize },
    IOError(std::io::Error),
    UnexpectedType { actual: Type, expected: Type },
    InvalidBinaryExpression(Type, Type, Operator),
    InvalidArguments(Seq<char>, usize, usize),
    NoReturn(Seq<char>),
    NonFunctionCallInDylib(StatementView),
    MissingAbiCompat { library: Seq<char> },
    IncompatibleAbi(u32),
    DylibReturnedNil,
}

impl View for ErrorKind {
    type V = ErrorKindView;

    open spec fn view(&self) -> ErrorKindView {
        match self {
            ErrorKind::UnknownVariable(name) => ErrorKindView::UnknownVariable(name@),
            ErrorKind::IndexUnindexable(t) => ErrorKindView::IndexUnindexable(*t),
            ErrorKind::SyntaxError(err) => ErrorKindView::SyntaxError(err@),
            ErrorKind::IndexOutOfBounds { len, index } => ErrorKindView::IndexOutOfBounds {
                len: *len,
                index: *index,
            },
            ErrorKind::IOError(err) => ErrorKindView::IOError(*err),
            ErrorKind::UnexpectedType { actual, expected } => ErrorKindView::UnexpectedType {
                actual: *actual,
                expected: *expected,
            },
            ErrorKind::InvalidBinaryExpression(lhs, rhs, op) => {
                ErrorKindView::InvalidBinaryExpression(*lhs, *rhs, *op)
            },
            ErrorKind::InvalidArguments(name, expected, actual) => ErrorKindView::InvalidArguments(
                name@,
                *expected,
                *actual,
            ),
            ErrorKind::NoReturn(name) => ErrorKindView::NoReturn(name@),
            ErrorKind::NonFunctionCallInDylib(statement) => ErrorKindView::NonFunctionCallInDylib(
                statement@,
            ),
            ErrorKind::MissingAbiCompat { library } => ErrorKindView::MissingAbiCompat {
                library: library@,
            },
            ErrorKind::IncompatibleAbi(version) => ErrorKindView::IncompatibleAbi(*version),
            ErrorKind::DylibReturnedNil => ErrorKindView::DylibReturnedNil,
        }
    }
}

impl ErrorKindView {
    /// Whether two failures count as equal: they are of the same kind and
    /// carry the same payload. Two operating-system failures count as equal
    /// whatever their causes are.
    pub open spec fn matches(self, other: ErrorKindView) -> bool {
        if self is IOError {
            other is IOError
        } else {
            self == other
        }
    }
}

/// Every failure counts as equal to itself.
pub proof fn law_matches_reflexive(a: ErrorKindView)
    ensures
        a.matches(a),
{
}

/// If one failure counts as equal to another, so does the other to the one.
pub proof fn law_matches_symmetric(a: ErrorKindView, b: ErrorKindView)
    ensures
        a.matches(b) == b.matches(a),
{
}

/// Two failures that count as equal to a third count as equal to each other.
pub proof fn law_matches_transitive(a: ErrorKindView, b: ErrorKindView, c: ErrorKindView)
    requires
        a.matches(b),
        b.matches(c),
    ensures
        a.matches(c),
{
}

/// Two failures of which neither is an operating-system failure count as
/// equal only if they have the same content; two operating-system failures
/// always do.
pub proof fn law_matches_payload(a: ErrorKindView, b: ErrorKindView)
    ensures
        a is IOError && b is IOError ==> a.matches(b),
        !(a is IOError) || !(b is IOError) ==> (a.matches(b) <==> a == b),
{
}

impl PartialEq for ErrorKind {
    /// Whether two failures are of the same kind and carry the same payload;
    /// two operating-system failures count as equal whatever their causes are.
    fn eq(&self, other: &ErrorKind) -> (r: bool) {
        match (self, other) {
            (ErrorKind::IndexUnindexable(s), ErrorKind::IndexUnindexable(o)) => *s == *o,
            (ErrorKind::SyntaxError(s), ErrorKind::SyntaxError(o)) => s.same(o),
            (ErrorKind::UnknownVariable(s), ErrorKind::UnknownVariable(o)) => *s == *o,
            (ErrorKind::NoReturn(s), ErrorKind::NoReturn(o)) => *s == *o,
            (
                ErrorKind::InvalidArguments(sn, ss1, ss2),
                ErrorKind::InvalidArguments(on, os1, os2),
            ) => *sn == *on && *ss1 == *os1 && *ss2 == *os2,
            (
                ErrorKind::IndexOutOfBounds { len: slen, index: sindex },
                ErrorKind::IndexOutOfBounds { len: olen, index: oindex },
            ) => *slen == *olen && *sindex == *oindex,
            (ErrorKind::NonFunctionCallInDylib(s), ErrorKind::NonFunctionCallInDylib(o)) => {
                s.same(o)
            },
            (ErrorKind::IOError(_), ErrorKind::IOError(_)) => true,
            (
                ErrorKind::UnexpectedType { actual: sactual, expected: sexpected },
                ErrorKind::UnexpectedType { actual: oactual, expected: oexpected },
            ) => *sactual == *oactual && *sexpected == *oexpected,
            (
                ErrorKind::InvalidBinaryExpression(sv1, sv2, so),
                ErrorKind::InvalidBinaryExpression(ov1, ov2, oo),
            ) => *sv1 == *ov1 && *sv2 == *ov2 && *so == *oo,
            (
                ErrorKind::MissingAbiCompat { library: lib1 },
                ErrorKind::MissingAbiCompat { library: lib2 },
            ) => *lib1 == *lib2,
            (ErrorKind::IncompatibleAbi(ver1), ErrorKind::IncompatibleAbi(ver2)) => *ver1 == *ver2,
            (ErrorKind::DylibReturnedNil, ErrorKind::DylibReturnedNil) => true,
            _ => false,
        }
    }
}

impl PartialEqSpecImpl for ErrorKind {
    open spec fn obeys_eq_spec() -> bool {
        true
    }

    open spec fn eq_spec(&self, other: &ErrorKind) -> bool {
        self@.matches(other@)
    }
}

impl From<std::io::Error> for ErrorKind {
    fn from(err: std::io::Error) -> (r: ErrorKind) {
        ErrorKind::IOError(err)
    }
}

impl FromSpecImpl<std::io::Error> for ErrorKind {
    open spec fn obeys_from_spec() -> bool {
        true
    }

    open spec fn from_spec(err: std::io::Error) -> ErrorKind {
        ErrorKind::IOError(err)
    }
}

/// A failure together with the statement during whose execution it arose.
#[derive(Debug)]
pub struct Error {
    pub place: Statement,
    pub kind: ErrorKind,
}

/// The mathematical content of an [`Error`].
pub struct ErrorView {
    pub place: StatementView,
    pub kind: ErrorKindView,
}

impl View for Error {
    type V = ErrorView;

    open spec fn view(&self) -> ErrorView {
        ErrorView { place: self.place@, kind: self.kind@ }
    }
}

impl Error {
    /// Attaches to a failure the statement that caused it.
    pub fn new(kind: ErrorKind, place: Statement) -> (r: Error)
        ensures
            r.kind == kind,
            r.place == place,
    {
        Error { kind, place }
    }
}

/// `Debug` of `std::io::Error`: the text in which std shows the cause of an
/// operating-system failure. It depends on the platform, so nothing is
/// claimed of it.
#[verifier::external_body]
fn io_error_detail(err: &std::io::Error) -> (s: String) {
    format!("{:?}", err)
}

impl ErrorKindView {
    /// The sentence that tells the user of the failure. `detail` is the text
    /// that shows the cause of an operating-system failure; the other kinds
    /// do not use it.
    pub open spec fn message_spec(self, detail: Seq<char>) -> Seq<char> {
        match self {
            ErrorKindView::UnknownVariable(name) => "There's no "@ + name
                + " in this universe, Morty!"@,
            ErrorKindView::NoReturn(fn_name) => "Morty, your function has to return a value! "@
                + fn_name + " just runs and dies like an animal!"@,
            ErrorKindView::IndexUnindexable(value) =>
                "I'll try and say this slowly Morty. You can't index that. It's a "@
                + value.name_spec(),
            ErrorKindView::SyntaxError(err) =>
                "If you're going to start trying to construct sub-programs in your programs Morty, you'd better make sure you're careful! "@
                + err.describe_spec(),
            ErrorKindView::IndexOutOfBounds { len, index } =>
                "This isn't your mom's wine bottle Morty, you can't just keep asking for more, there's not that much here! You want "@
                + decimal_spec(index as nat) + ", but your cob only has "@ + decimal_spec(
                len as nat,
            ) + " kernels on it!"@,
            ErrorKindView::IOError(_) =>
                "Looks like we're having a comm-burp-unications problem Morty: "@ + detail,
            ErrorKindView::UnexpectedType { actual, expected } => "I asked for a "@
                + expected.name_spec() + ", not a "@ + actual.name_spec() + " Morty."@,
            ErrorKindView::InvalidBinaryExpression(lhs, rhs, op) =>
                "It's like apples and space worms Morty! You can't "@ + op.name_spec() + " a "@
                + lhs.name_spec() + " and a "@ + rhs.name_spec() + "!"@,
            ErrorKindView::InvalidArguments(name, expected, actual) =>
                "I'm confused Morty, a minute ago you said that "@ + name + " takes "@
                + decimal_spec(expected as nat) + " paramaters, but you just tried to give it "@
                + decimal_spec(actual as nat) + ". WHICH IS IT MORTY?"@,
            ErrorKindView::NonFunctionCallInDylib(_) =>
                "Is this a miniverse, or a microverse, or a teeny-verse? All I know is you fucked up."@,
            ErrorKindView::IncompatibleAbi(compat) =>
                "That's an older code, Morty and it does not check out. That microverse can only be run by schwift "@
                + decimal_spec(compat as nat) + ", but this is "@ + decimal_spec(
                crate::LIBSCHWIFT_ABI_COMPAT as nat,
            ),
            ErrorKindView::MissingAbiCompat { library } =>
                "Wait, wait, I'm confused. Just a second ago, you said that "@ + library
                + " was a microverse, but when I looked there, I didn't know what I was looking at."@,
            ErrorKindView::DylibReturnedNil =>
                "I told you how a Microverse works Morty. At what point exactly did you stop listening?"@,
        }
    }
}

impl ErrorKind {
    /// The sentence that tells the user of the failure, with `detail` as the
    /// text that shows the cause of an operating-system failure.
    pub fn message_with(&self, detail: &str) -> (s: String)
        ensures
            s@ == self@.message_spec(detail@),
    {
        match self {
            ErrorKind::UnknownVariable(name) => {
                let mut s = String::from_str("There's no ");
                s.append(name.as_str());
                s.append(" in this universe, Morty!");
                s
            },
            ErrorKind::NoReturn(fn_name) => {
                let mut s = String::from_str("Morty, your function has to return a value! ");
                s.append(fn_name.as_str());
                s.append(" just runs and dies like an animal!");
                s
            },
            ErrorKind::IndexUnindexable(value) => {
                let mut s = String::from_str(
                    "I'll try and say this slowly Morty. You can't index that. It's a ",
                );
                s.append(value.name());
                s
            },
            ErrorKind::SyntaxError(err) => {
                let mut s = String::from_str(
                    "If you're going to start trying to construct sub-programs in your programs Morty, you'd better make sure you're careful! ",
                );
                s.append(err.describe().as_str());
                s
            },
            ErrorKind::IndexOutOfBounds { len, index } => {
                let mut s = String::from_str(
                    "This isn't your mom's wine bottle Morty, you can't just keep asking for more, there's not that much here! You want ",
                );
                s.append(decimal_of_size(*index).as_str());
                s.append(", but your cob only has ");
                s.append(decimal_of_size(*len).as_str());
                s.append(" kernels on it!");
                s
            },
            ErrorKind::IOError(_) => {
                let mut s = String::from_str(
                    "Looks like we're having a comm-burp-unications problem Morty: ",
                );
                s.append(detail);
                s
            },
            ErrorKind::UnexpectedType { actual, expected } => {
                let mut s = String::from_str("I asked for a ");
                s.append(expected.name());
                s.append(", not a ");
                s.append(actual.name());
                s.append(" Morty.");
                s
            },
            ErrorKind::InvalidBinaryExpression(lhs, rhs, op) => {
                let mut s = String::from_str("It's like apples and space worms Morty! You can't ");
                s.append(op.name());
                s.append(" a ");
                s.append(lhs.name());
                s.append(" and a ");
                s.append(rhs.name());
                s.append("!");
                s
            },
            ErrorKind::InvalidArguments(name, expected, actual) => {
                let mut s = String::from_str("I'm confused Morty, a minute ago you said that ");
                s.append(name.as_str());
                s.append(" takes ");
                s.append(decimal_of_size(*expected).as_str());
                s.append(" paramaters, but you just tried to give it ");
                s.append(decimal_of_size(*actual).as_str());
                s.append(". WHICH IS IT MORTY?");
                s
            },
            ErrorKind::NonFunctionCallInDylib(_) => String::from_str(
                "Is this a miniverse, or a microverse, or a teeny-verse? All I know is you fucked up.",
            ),
            ErrorKind::IncompatibleAbi(compat) => {
                let mut s = String::from_str(
                    "That's an older code, Morty and it does not check out. That microverse can only be run by schwift ",
                );
                s.append(decimal(*compat as u64).as_str());
                s.append(", but this is ");
                s.append(decimal(crate::LIBSCHWIFT_ABI_COMPAT as u64).as_str());
                s
            },
            ErrorKind::MissingAbiCompat { library } => {
                let mut s = String::from_str(
                    "Wait, wait, I'm confused. Just a second ago, you said that ",
                );
                s.append(library.as_str());
                s.append(
                    " was a microverse, but when I looked there, I didn't know what I was looking at.",
                );
                s
            },
            ErrorKind::DylibReturnedNil => String::from_str(
                "I told you how a Microverse works Morty. At what point exactly did you stop listening?",
            ),
        }
    }

    /// The sentence that tells the user of the failure. For an
    /// operating-system failure it ends with the text in which std shows the
    /// cause, whatever that is; for every other kind it is fixed by the kind
    /// and its payload.
    pub fn message(&self) -> (s: String)
        ensures
            exists|detail: Seq<char>| s@ == self@.message_spec(detail),
            !(self@ is IOError) ==> s@ == self@.message_spec(Seq::empty()),
    {
        match self {
            ErrorKind::IOError(err) => {
                let detail = io_error_detail(err);
                let s = self.message_with(detail.as_str());
                assert(s@ == self@.message_spec(detail@));
                s
            },
            _ => {
                let s = self.message_with("");
                assert(s@ == self@.message_spec(Seq::empty()));
                s
            },
        }
    }
}

impl Error {
    /// The sentence that tells the user of the failure: that of its kind.
    pub fn message(&self) -> (s: String)
        ensures
            exists|detail: Seq<char>| s@ == self@.kind.message_spec(detail),
            !(self@.kind is IOError) ==> s@ == self@.kind.message_spec(Seq::empty()),
    {
        self.kind.message()
    }
}

/// The report of a fatal failure: the offending source text, the sentence
/// that tells of the failure, and a line of flavor text, laid out as a block.
pub open spec fn panic_message_spec(
    source_part: Seq<char>,
    message: Seq<char>,
    quote: Seq<char>,
) -> Seq<char> {
    "\n    You made a Rickdiculous mistake:\n\n    "@ + source_part + "\n    "@ + message
        + "\n\n    "@ + quote + "\n\n    "@
}

/// Lays out the report of a fatal failure.
pub fn panic_message(source_part: &str, message: &str, quote: &str) -> (s: String)
    ensures
        s@ == panic_message_spec(source_part@, message@, quote@),
{
    let mut s = String::from_str("\n    You made a Rickdiculous mistake:\n\n    ");
    s.append(source_part);
    s.append("\n    ");
    s.append(message);
    s.append("\n\n    ");
    s.append(quote);
    s.append("\n\n    ");
    s
}

impl Error {
    /// The report of this failure against the source text of the program,
    /// closed by a line of flavor text drawn at random. There is none if the
    /// source text does not hold the span of the statement.
    pub fn full_panic_message(&self, source: &str) -> (r: Option<String>)
        ensures
            r is Some <==> self@.place.source_spec(source@) is Some,
            r matches Some(text) ==> exists|detail: Seq<char>, quote: Seq<char>|
                is_quote(quote) && text@ == #[trigger] panic_message_spec(
                    self@.place.source_spec(source@)->0,
                    self@.kind.message_spec(detail),
                    quote,
                ),
    {
        match self.place.get_source(source) {
            Some(source_part) => {
                let quote = random_quote();
                let message = self.message();
                let text = panic_message(source_part.as_str(), message.as_str(), quote);
                proof {
                    let detail = choose|detail: Seq<char>|
                        message@ == self@.kind.message_spec(detail);
                    assert(is_quote(quote@) && text@ == panic_message_spec(
                        self@.place.source_spec(source@)->0,
                        self@.kind.message_spec(detail),
                        quote@,
                    ));
                }
                Some(text)
            },
            None => None,
        }
    }
}

} // verus!
