//! Parse errors of the node-graph language, and their rendered texts.
//!
//! Each error carries the source span it covers; `message` is the
//! headline of a diagnostic and `label_message` the text of its label.
//! The diagnostic renderer that draws them over the source lives with the
//! embedding.

use vstd::prelude::*;
use vstd::string::StringExecFns;

verus! {

/// A half-open source range, in characters.
#[derive(Clone, Copy, Debug, PartialEq, Eq, Structural)]
pub struct Span {
    pub start: usize,
    pub end: usize,
}

/// What went wrong while parsing.
#[derive(Clone, Debug, PartialEq)]
pub enum ParseError {
    InvalidNumber { span: Span, found: String, expected: String },
    InvalidVector { span: Span, found_components: usize, expected_components: usize },
    InvalidColor { span: Span, found_components: usize, expected_components: usize },
    UnexpectedToken { span: Span, found: Option<char>, expected: Vec<String> },
    UnexpectedEndOfInput { span: Span, expected: Vec<String> },
    InvalidNodeType { span: Span, found: String, valid_types: Vec<String> },
    MissingRequiredField { span: Span, field: String, node_type: String },
    InvalidFieldValue { span: Span, field: String, found: String, expected: String },
}

#[verifier::ext_equal]
pub enum ParseErrorView {
    InvalidNumber { span: Span, found: Seq<char>, expected: Seq<char> },
    InvalidVector { span: Span, found_components: usize, expected_components: usize },
    InvalidColor { span: Span, found_components: usize, expected_components: usize },
    UnexpectedToken { span: Span, found: Option<char>, expected: Seq<Seq<char>> },
    UnexpectedEndOfInput { span: Span, expected: Seq<Seq<char>> },
    InvalidNodeType { span: Span, found: Seq<char>, valid_types: Seq<Seq<char>> },
    MissingRequiredField { span: Span, field: Seq<char>, node_type: Seq<char> },
    InvalidFieldValue { span: Span, field: Seq<char>, found: Seq<char>, expected: Seq<char> },
}

impl View for ParseError {
    type V = ParseErrorView;

    open spec fn view(&self) -> ParseErrorView {
        match self {
            ParseError::InvalidNumber { span, found, expected } => ParseErrorView::InvalidNumber {
                span: *span,
                found: found@,
                expected: expected@,
            },
            ParseError::InvalidVector { span, found_components, expected_components } => (
                ParseErrorView::InvalidVector {
                    span: *span,
                    found_components: *found_components,
                    expected_components: *expected_components,
                }
            ),
            ParseError::InvalidColor { span, found_components, expected_components } => (
                ParseErrorView::InvalidColor {
                    span: *span,
                    found_components: *found_components,
                    expected_components: *expected_components,
                }
            ),
            ParseError::UnexpectedToken { span, found, expected } => (
                ParseErrorView::UnexpectedToken {
                    span: *span,
                    found: *found,
                    expected: expected.deep_view(),
                }
            ),
            ParseError::UnexpectedEndOfInput { span, expected } => (
                ParseErrorView::UnexpectedEndOfInput {
                    span: *span,
                    expected: expected.deep_view(),
                }
            ),
            ParseError::InvalidNodeType { span, found, valid_types } => (
                ParseErrorView::InvalidNodeType {
                    span: *span,
                    found: found@,
                    valid_types: valid_types.deep_view(),
                }
            ),
            ParseError::MissingRequiredField { span, field, node_type } => (
                ParseErrorView::MissingRequiredField {
                    span: *span,
                    field: field@,
                    node_type: node_type@,
                }
            ),
            ParseError::InvalidFieldValue { span, field, found, expected } => (
                ParseErrorView::InvalidFieldValue {
                    span: *span,
                    field: field@,
                    found: found@,
                    expected: expected@,
                }
            ),
        }
    }
}

impl DeepView for ParseError {
    type V = ParseErrorView;

    open spec fn deep_view(&self) -> ParseErrorView {
        self.view()
    }
}

/// A parse outcome: the value, or the collected errors.
pub type ParseResult<T> = Result<T, Vec<ParseError>>;

// ---------------------------------------------------------------------------
// Rendering helpers
// ---------------------------------------------------------------------------

/// The single decimal digit `d` as text.
pub open spec fn spec_digit_str(d: int) -> Seq<char> {
    if d == 0 {
        "0"@
    } else if d == 1 {
        "1"@
    } else if d == 2 {
        "2"@
    } else if d == 3 {
        "3"@
    } else if d == 4 {
        "4"@
    } else if d == 5 {
        "5"@
    } else if d == 6 {
        "6"@
    } else if d == 7 {
        "7"@
    } else if d == 8 {
        "8"@
    } else {
        "9"@
    }
}

/// The decimal rendering of a non-negative number.
pub open spec fn spec_nat_digits(n: int) -> Seq<char>
    decreases n,
{
    if n <= 9 {
        spec_digit_str(n)
    } else {
        spec_nat_digits(n / 10) + spec_digit_str(n % 10)
    }
}

/// Appends the decimal rendering of `n`.
fn push_u64(s: &mut String, n: u64)
    ensures
        final(s)@ == old(s)@ + spec_nat_digits(n as int),
    decreases n,
{
    let ghost mid = s@;
    if n >= 10 {
        push_u64(s, n / 10);
        proof {
            assert(s@ == old(s)@ + spec_nat_digits(n as int / 10));
        }
    }
    let ghost before = s@;
    let d = n % 10;
    if d == 0 {
        s.append("0");
    } else if d == 1 {
        s.append("1");
    } else if d == 2 {
        s.append("2");
    } else if d == 3 {
        s.append("3");
    } else if d == 4 {
        s.append("4");
    } else if d == 5 {
        s.append("5");
    } else if d == 6 {
        s.append("6");
    } else if d == 7 {
        s.append("7");
    } else if d == 8 {
        s.append("8");
    } else {
        s.append("9");
    }
    proof {
        assert(s@ == before + spec_digit_str(n as int % 10));
        if n >= 10 {
            assert(old(s)@ + spec_nat_digits(n as int / 10) + spec_digit_str(n as int % 10)
                =~= old(s)@ + spec_nat_digits(n as int));
        } else {
            assert(spec_digit_str(n as int) == spec_nat_digits(n as int));
        }
    }
}

/// The decimal rendering of a count.
pub fn usize_string(n: usize) -> (r: String)
    ensures
        r@ == spec_nat_digits(n as int),
{
    let mut s = String::new();
    push_u64(&mut s, n as u64);
    proof {
        assert(Seq::<char>::empty() + spec_nat_digits(n as int) =~= spec_nat_digits(n as int));
    }
    s
}

/// The items joined by the separator, in order.
pub open spec fn spec_join(items: Seq<Seq<char>>, sep: Seq<char>) -> Seq<char>
    decreases items.len(),
{
    if items.len() == 0 {
        Seq::empty()
    } else if items.len() == 1 {
        items[0]
    } else {
        spec_join(items.drop_last(), sep) + sep + items.last()
    }
}

/// Joins the strings with the separator.
fn join_strings(items: &Vec<String>, sep: &str) -> (r: String)
    ensures
        r@ == spec_join(items.deep_view(), sep@),
{
    let mut r = String::new();
    let mut i: usize = 0;
    proof {
        assert(items.deep_view().take(0) =~= Seq::<Seq<char>>::empty());
    }
    while i < items.len()
        invariant
            i <= items@.len(),
            items.deep_view().len() == items@.len(),
            r@ == spec_join(items.deep_view().take(i as int), sep@),
        decreases items@.len() - i,
    {
        let ghost prefix = items.deep_view().take(i as int);
        let ghost next_prefix = items.deep_view().take(i + 1);
        proof {
            assert(next_prefix.drop_last() =~= prefix);
            assert(next_prefix.last() == items.deep_view()[i as int]);
        }
        if i > 0 {
            r.append(sep);
        }
        r.append(items[i].as_str());
        proof {
            if i == 0 {
                assert(next_prefix.len() == 1);
                assert(r@ =~= spec_join(next_prefix, sep@));
            } else {
                assert(r@ =~= spec_join(prefix, sep@) + sep@ + next_prefix.last());
            }
        }
        i = i + 1;
    }
    proof {
        assert(items.deep_view().take(items@.len() as int) =~= items.deep_view());
    }
    r
}

// ---------------------------------------------------------------------------
// The error texts
// ---------------------------------------------------------------------------

pub open spec fn spec_error_span(e: ParseErrorView) -> Span {
    match e {
        ParseErrorView::InvalidNumber { span, .. } => span,
        ParseErrorView::InvalidVector { span, .. } => span,
        ParseErrorView::InvalidColor { span, .. } => span,
        ParseErrorView::UnexpectedToken { span, .. } => span,
        ParseErrorView::UnexpectedEndOfInput { span, .. } => span,
        ParseErrorView::InvalidNodeType { span, .. } => span,
        ParseErrorView::MissingRequiredField { span, .. } => span,
        ParseErrorView::InvalidFieldValue { span, .. } => span,
    }
}

/// The headline of a diagnostic for the error.
pub open spec fn spec_error_message(e: ParseErrorView) -> Seq<char> {
    match e {
        ParseErrorView::InvalidNumber { expected, .. } => "Invalid number format, expected "@
            + expected,
        ParseErrorView::InvalidVector { found_components, expected_components, .. } => (
        "Invalid vector: found "@ + spec_nat_digits(found_components as int)
            + " components, expected "@ + spec_nat_digits(expected_components as int)),
        ParseErrorView::InvalidColor { found_components, expected_components, .. } => (
        "Invalid color: found "@ + spec_nat_digits(found_components as int)
            + " components, expected "@ + spec_nat_digits(expected_components as int)),
        ParseErrorView::UnexpectedToken { expected, .. } => {
            if expected.len() == 0 {
                "Unexpected token"@
            } else {
                "Expected one of: "@ + spec_join(expected, ", "@)
            }
        },
        ParseErrorView::UnexpectedEndOfInput { expected, .. } => {
            if expected.len() == 0 {
                "Unexpected end of input"@
            } else {
                "Unexpected end of input, expected: "@ + spec_join(expected, ", "@)
            }
        },
        ParseErrorView::InvalidNodeType { found, valid_types, .. } => "Invalid node type '"@
            + found + "', valid types: "@ + spec_join(valid_types, ", "@),
        ParseErrorView::MissingRequiredField { field, node_type, .. } => (
        "Missing required field '"@ + field + "' for "@ + node_type + " node"@),
        ParseErrorView::InvalidFieldValue { field, found, expected, .. } => ("Invalid value '"@
            + found + "' for field '"@ + field + "', expected "@ + expected),
    }
}

/// The text of the diagnostic's label at the error's span.
pub open spec fn spec_label_message(e: ParseErrorView) -> Seq<char> {
    match e {
        ParseErrorView::InvalidNumber { found, .. } => "'"@ + found + "' is not a valid number"@,
        ParseErrorView::InvalidVector { found_components, .. } => "Vector has "@ + spec_nat_digits(
            found_components as int,
        ) + " components"@,
        ParseErrorView::InvalidColor { found_components, .. } => "Color has "@ + spec_nat_digits(
            found_components as int,
        ) + " components"@,
        ParseErrorView::UnexpectedToken { found, .. } => match found {
            Some(ch) => "Found '"@ + seq![ch] + "' here"@,
            None => "Found end of input here"@,
        },
        ParseErrorView::UnexpectedEndOfInput { .. } => "Input ended here"@,
        ParseErrorView::InvalidNodeType { found, .. } => "'"@ + found
            + "' is not a valid node type"@,
        ParseErrorView::MissingRequiredField { field, .. } => "'"@ + field + "' field is required"@,
        ParseErrorView::InvalidFieldValue { found, .. } => "'"@ + found + "' is not valid here"@,
    }
}

/// Relies on String::push: appends exactly the one given character.
#[verifier::external_body]
pub(crate) fn push_char(s: &mut String, c: char)
    ensures
        final(s)@ == old(s)@.push(c),
{
    s.push(c)
}

impl ParseError {
    /// The source span the error covers.
    pub fn span(&self) -> (r: Span)
        ensures
            r == spec_error_span(self@),
    {
        match self {
            ParseError::InvalidNumber { span, .. } => *span,
            ParseError::InvalidVector { span, .. } => *span,
            ParseError::InvalidColor { span, .. } => *span,
            ParseError::UnexpectedToken { span, .. } => *span,
            ParseError::UnexpectedEndOfInput { span, .. } => *span,
            ParseError::InvalidNodeType { span, .. } => *span,
            ParseError::MissingRequiredField { span, .. } => *span,
            ParseError::InvalidFieldValue { span, .. } => *span,
        }
    }

    /// The headline of a diagnostic for the error.
    pub fn message(&self) -> (r: String)
        ensures
            r@ == spec_error_message(self@),
    {
        match self {
            ParseError::InvalidNumber { expected, .. } => {
                let mut s = "Invalid number format, expected ".to_owned();
                s.append(expected.as_str());
                s
            },
            ParseError::InvalidVector { found_components, expected_components, .. } => {
                let mut s = "Invalid vector: found ".to_owned();
                s.append(usize_string(*found_components).as_str());
                s.append(" components, expected ");
                s.append(usize_string(*expected_components).as_str());
                s
            },
            ParseError::InvalidColor { found_components, expected_components, .. } => {
                let mut s = "Invalid color: found ".to_owned();
                s.append(usize_string(*found_components).as_str());
                s.append(" components, expected ");
                s.append(usize_string(*expected_components).as_str());
                s
            },
            ParseError::UnexpectedToken { expected, .. } => {
                if expected.len() == 0 {
                    "Unexpected token".to_owned()
                } else {
                    let mut s = "Expected one of: ".to_owned();
                    s.append(join_strings(expected, ", ").as_str());
                    s
                }
            },
            ParseError::UnexpectedEndOfInput { expected, .. } => {
                if expected.len() == 0 {
                    "Unexpected end of input".to_owned()
                } else {
                    let mut s = "Unexpected end of input, expected: ".to_owned();
                    s.append(join_strings(expected, ", ").as_str());
                    s
                }
            },
            ParseError::InvalidNodeType { found, valid_types, .. } => {
                let mut s = "Invalid node type '".to_owned();
                s.append(found.as_str());
                s.append("', valid types: ");
                s.append(join_strings(valid_types, ", ").as_str());
                s
            },
            ParseError::MissingRequiredField { field, node_type, .. } => {
                let mut s = "Missing required field '".to_owned();
                s.append(field.as_str());
                s.append("' for ");
                s.append(node_type.as_str());
                s.append(" node");
                s
            },
            ParseError::InvalidFieldValue { field, found, expected, .. } => {
                let mut s = "Invalid value '".to_owned();
                s.append(found.as_str());
                s.append("' for field '");
                s.append(field.as_str());
                s.append("', expected ");
                s.append(expected.as_str());
                s
            },
        }
    }

    /// The text of the diagnostic's label at the error's span.
    pub fn label_message(&self) -> (r: String)
        ensures
            r@ == spec_label_message(self@),
    {
        match self {
            ParseError::InvalidNumber { found, .. } => {
                let mut s = "'".to_owned();
                s.append(found.as_str());
                s.append("' is not a valid number");
                s
            },
            ParseError::InvalidVector { found_components, .. } => {
                let mut s = "Vector has ".to_owned();
                s.append(usize_string(*found_components).as_str());
                s.append(" components");
                s
            },
            ParseError::InvalidColor { found_components, .. } => {
                let mut s = "Color has ".to_owned();
                s.append(usize_string(*found_components).as_str());
                s.append(" components");
                s
            },
            ParseError::UnexpectedToken { found, .. } => match found {
                Some(ch) => {
                    let mut s = "Found '".to_owned();
                    push_char(&mut s, *ch);
                    s.append("' here");
                    s
                },
                None => "Found end of input here".to_owned(),
            },
            ParseError::UnexpectedEndOfInput { .. } => "Input ended here".to_owned(),
            ParseError::InvalidNodeType { found, .. } => {
                let mut s = "'".to_owned();
                s.append(found.as_str());
                s.append("' is not a valid node type");
                s
            },
            ParseError::MissingRequiredField { field, .. } => {
                let mut s = "'".to_owned();
                s.append(field.as_str());
                s.append("' field is required");
                s
            },
            ParseError::InvalidFieldValue { found, .. } => {
                let mut s = "'".to_owned();
                s.append(found.as_str());
                s.append("' is not valid here");
                s
            },
        }
    }
}

} // verus!
