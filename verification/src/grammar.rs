//! What the parsing front end reports when a source text cannot be parsed.

use vstd::prelude::*;
use vstd::std_specs::cmp::PartialEqSpecImpl;
use vstd::string::StringExecFns;
use crate::statement::{duplicate_names, names_view, same_names};
use crate::text::{decimal_of_size, decimal_spec};

verus! {

/// A structured parse failure: where the parser stopped, and what it would
/// have accepted there.
#[derive(Debug)]
pub struct ParseError {
    pub line: usize,
    pub column: usize,
    pub offset: usize,
    pub expected: Vec<String>,
}

/// The mathematical content of a [`ParseError`].
pub struct ParseErrorView {
    pub line: usize,
    pub column: usize,
    pub offset: usize,
    pub expected: Seq<Seq<char>>,
}

impl View for ParseError {
    type V = ParseErrorView;

    open spec fn view(&self) -> ParseErrorView {
        ParseErrorView {
            line: self.line,
            column: self.column,
            offset: self.offset,
            expected: names_view(self.expected@),
        }
    }
}

/// The first `n` tokens, each between double quotes, with a comma and a
/// space between two of them.
pub open spec fn quoted_list_spec(tokens: Seq<Seq<char>>, n: nat) -> Seq<char>
    decreases n,
{
    if n == 0 {
        Seq::empty()
    } else if n == 1 {
        "\""@ + tokens[0] + "\""@
    } else {
        quoted_list_spec(tokens, (n - 1) as nat) + ", "@ + "\""@ + tokens[n - 1] + "\""@
    }
}

impl ParseErrorView {
    /// The text that stands for the failure in a message.
    pub open spec fn describe_spec(self) -> Seq<char> {
        "ParseError { line: "@ + decimal_spec(self.line as nat) + ", column: "@ + decimal_spec(
            self.column as nat,
        ) + ", offset: "@ + decimal_spec(self.offset as nat) + ", expected: {"@ + quoted_list_spec(
            self.expected,
            self.expected.len(),
        ) + "} }"@
    }
}

impl ParseError {
    /// A copy with the same content.
    pub fn duplicate(&self) -> (r: ParseError)
        ensures
            r@ == self@,
    {
        ParseError {
            line: self.line,
            column: self.column,
            offset: self.offset,
            expected: duplicate_names(&self.expected),
        }
    }

    /// Whether two failures have the same content.
    pub fn same(&self, other: &ParseError) -> (r: bool)
        ensures
            r == (self@ == other@),
    {
        self.line == other.line && self.column == other.column && self.offset == other.offset
            && same_names(&self.expected, &other.expected)
    }

    /// The text that stands for the failure in a message.
    pub fn describe(&self) -> (s: String)
        ensures
            s@ == self@.describe_spec(),
    {
        let mut list = String::new();
        let mut i: usize = 0;
        while i < self.expected.len()
            invariant
                i <= self.expected.len(),
                list@ == quoted_list_spec(names_view(self.expected@), i as nat),
            decreases self.expected.len() - i,
        {
            if i > 0 {
                list.append(", ");
            }
            list.append("\"");
            list.append(self.expected[i].as_str());
            list.append("\"");
            i = i + 1;
            assert(list@ == quoted_list_spec(names_view(self.expected@), i as nat)) by {
                assert(names_view(self.expected@)[i - 1] == self.expected@[i - 1]@);
                assert(Seq::<char>::empty() + "\""@ =~= "\""@);
            }
        }
        let mut s = String::from_str("ParseError { line: ");
        s.append(decimal_of_size(self.line).as_str());
        s.append(", column: ");
        s.append(decimal_of_size(self.column).as_str());
        s.append(", offset: ");
        s.append(decimal_of_size(self.offset).as_str());
        s.append(", expected: {");
        s.append(list.as_str());
        s.append("} }");
        s
    }
}

impl PartialEq for ParseError {
    /// Whether two failures have the same content.
    fn eq(&self, other: &ParseError) -> (r: bool) {
        self.same(other)
    }
}

impl PartialEqSpecImpl for ParseError {
    open spec fn obeys_eq_spec() -> bool {
        true
    }

    open spec fn eq_spec(&self, other: &ParseError) -> bool {
        self@ == other@
    }
}

} // verus!
