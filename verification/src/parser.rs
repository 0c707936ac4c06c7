//! The node-graph language's parser: one node — a cube with an optional
//! size, or a bare value — surrounded by whitespace.
//!
//! The grammar, over characters:
//!
//! ```text
//! input   := ws node ws
//! node    := "cube" ( ws '{' ws "size:" ws value ws '}' )?
//!          | "value" ws value
//! value   := number | boolean | '(' number ( ws ',' ws number )* ')'
//! number  := digits ( '.' digits )?
//! boolean := "true" | "false"
//! ```
//!
//! A parenthesized list of three numbers is a vector, of four a colour;
//! any other count is rejected. A numeric literal whose digits exceed the
//! mantissa range is rejected as an invalid number. A cube without a
//! braced size defaults to the size `2.0`.

use vstd::prelude::*;
use vstd::string::{StrSliceExecFns, StringExecFns};
use crate::error::{ParseError, ParseErrorView, ParseResult, Span, push_char};
use crate::graph::{Decimal, Node, NodeGraph, NodeGraphView, NodeId, NodeView, Value};

verus! {

/// A node as the parser first sees it, before it is named and placed in
/// a graph.
#[derive(Clone, Copy, Debug, PartialEq, Eq, Structural)]
pub enum ParsedNode {
    Cube { size: Option<Value> },
    Value(Value),
}

// ---------------------------------------------------------------------------
// Character classes and scanning positions
// ---------------------------------------------------------------------------

pub open spec fn spec_is_ws(c: char) -> bool {
    c == ' ' || c == '\t' || c == '\n' || c == '\r'
}

pub open spec fn spec_is_digit(c: char) -> bool {
    48 <= c as u32 <= 57
}

pub open spec fn spec_digit_val(c: char) -> int {
    c as u32 - 48
}

/// First position at or after `i` holding something other than
/// whitespace.
pub open spec fn spec_skip_ws(s: Seq<char>, i: int) -> int
    decreases s.len() - i,
{
    if 0 <= i < s.len() && spec_is_ws(s[i]) {
        spec_skip_ws(s, i + 1)
    } else {
        i
    }
}

pub proof fn lemma_skip_ws_bounds(s: Seq<char>, i: int)
    requires
        0 <= i <= s.len(),
    ensures
        i <= spec_skip_ws(s, i) <= s.len(),
    decreases s.len() - i,
{
    if i < s.len() && spec_is_ws(s[i]) {
        lemma_skip_ws_bounds(s, i + 1);
    }
}

/// First position at or after `i` holding a non-digit.
pub open spec fn spec_digits_end(s: Seq<char>, i: int) -> int
    decreases s.len() - i,
{
    if 0 <= i < s.len() && spec_is_digit(s[i]) {
        spec_digits_end(s, i + 1)
    } else {
        i
    }
}

pub proof fn lemma_digits_end_bounds(s: Seq<char>, i: int)
    requires
        0 <= i <= s.len(),
    ensures
        i <= spec_digits_end(s, i) <= s.len(),
        forall|k: int| i <= k < spec_digits_end(s, i) ==> spec_is_digit(#[trigger] s[k]),
    decreases s.len() - i,
{
    if i < s.len() && spec_is_digit(s[i]) {
        lemma_digits_end_bounds(s, i + 1);
    }
}

// ---------------------------------------------------------------------------
// Digit runs and their values
// ---------------------------------------------------------------------------

/// The digits of `s[i..j)` appended after the value `base`, reading left
/// to right.
pub open spec fn spec_digits_fold(base: int, s: Seq<char>, i: int, j: int) -> int
    decreases j - i,
{
    if j <= i {
        base
    } else {
        spec_digits_fold(base, s, i, j - 1) * 10 + spec_digit_val(s[j - 1])
    }
}

pub proof fn lemma_digits_fold_ge_base(base: int, s: Seq<char>, i: int, j: int)
    requires
        0 <= base,
        forall|k: int| i <= k < j ==> spec_is_digit(#[trigger] s[k]),
    ensures
        spec_digits_fold(base, s, i, j) >= base,
    decreases j - i,
{
    if j > i {
        lemma_digits_fold_ge_base(base, s, i, j - 1);
    }
}

// ---------------------------------------------------------------------------
// Number literals
// ---------------------------------------------------------------------------

/// The scan of a number literal starting at `i`.
pub enum NumberScan {
    /// No digit stands at `i`.
    Missing,
    /// The literal's digits exceed the mantissa range.
    TooLarge { start: int, end: int },
    /// The literal and the position after it.
    Number { value: Decimal, is_float: bool, end: int },
}

pub open spec fn spec_scan_number(s: Seq<char>, i: int) -> NumberScan {
    if !(0 <= i < s.len() && spec_is_digit(s[i])) {
        NumberScan::Missing
    } else {
        let j = spec_digits_end(s, i);
        if j < s.len() && s[j] == '.' && j + 1 < s.len() && spec_is_digit(s[j + 1]) {
            let k = spec_digits_end(s, j + 1);
            let mantissa = spec_digits_fold(spec_digits_fold(0, s, i, j), s, j + 1, k);
            if mantissa > i64::MAX {
                NumberScan::TooLarge { start: i, end: k }
            } else {
                NumberScan::Number {
                    value: Decimal { mantissa: mantissa as i64, scale: (k - (j + 1)) as usize },
                    is_float: true,
                    end: k,
                }
            }
        } else {
            let mantissa = spec_digits_fold(0, s, i, j);
            if mantissa > i64::MAX {
                NumberScan::TooLarge { start: i, end: j }
            } else {
                NumberScan::Number {
                    value: Decimal { mantissa: mantissa as i64, scale: 0 },
                    is_float: false,
                    end: j,
                }
            }
        }
    }
}

/// The scan of a value starting at `i`: the value and the position after
/// it, or what is wrong there.
pub open spec fn spec_scan_value(s: Seq<char>, i: int) -> Result<(Value, int), ParseErrorView> {
    if 0 <= i < s.len() && spec_is_digit(s[i]) {
        match spec_scan_number(s, i) {
            NumberScan::TooLarge { start, end } => Err(
                ParseErrorView::InvalidNumber {
                    span: Span { start: start as usize, end: end as usize },
                    found: s.subrange(start, end),
                    expected: "number"@,
                },
            ),
            NumberScan::Number { value, is_float, end } => {
                if is_float {
                    Ok((Value::Float(value), end))
                } else {
                    Ok((Value::Integer(value.mantissa), end))
                }
            },
            NumberScan::Missing => Err(arbitrary()),  // unreachable: a digit stands at `i`
        }
    } else if spec_match_at(s, i, "true"@) {
        Ok((Value::Boolean(true), i + 4))
    } else if spec_match_at(s, i, "false"@) {
        Ok((Value::Boolean(false), i + 5))
    } else if 0 <= i < s.len() && s[i] == '(' {
        match spec_scan_components(s, i + 1, Seq::empty()) {
            Ok((components, end)) => {
                if components.len() == 3 {
                    Ok((Value::Vector(components[0], components[1], components[2]), end))
                } else if components.len() == 4 {
                    Ok(
                        (
                            Value::Color(
                                components[0],
                                components[1],
                                components[2],
                                components[3],
                            ),
                            end,
                        ),
                    )
                } else if components.len() < 3 {
                    Err(
                        ParseErrorView::InvalidVector {
                            span: Span { start: i as usize, end: end as usize },
                            found_components: components.len() as usize,
                            expected_components: 3,
                        },
                    )
                } else {
                    Err(
                        ParseErrorView::InvalidColor {
                            span: Span { start: i as usize, end: end as usize },
                            found_components: components.len() as usize,
                            expected_components: 4,
                        },
                    )
                }
            },
            Err(e) => Err(e),
        }
    } else {
        Err(spec_unexpected_at(s, i, seq!["number"@, "boolean"@, "vector"@, "color"@]))
    }
}

/// The error for an unexpected character (or the input's end) at `i`.
pub open spec fn spec_unexpected_at(s: Seq<char>, i: int, expected: Seq<Seq<char>>) -> (
    ParseErrorView
) {
    if 0 <= i < s.len() {
        ParseErrorView::UnexpectedToken {
            span: Span { start: i as usize, end: (i + 1) as usize },
            found: Some(s[i]),
            expected,
        }
    } else {
        ParseErrorView::UnexpectedEndOfInput {
            span: Span { start: i as usize, end: i as usize },
            expected,
        }
    }
}

/// Whether the token stands at position `i`.
pub open spec fn spec_match_at(s: Seq<char>, i: int, token: Seq<char>) -> bool {
    &&& 0 <= i
    &&& i + token.len() <= s.len()
    &&& forall|k: int| 0 <= k < token.len() ==> s[i + k] == #[trigger] token[k]
}

/// The scan of a comma-separated number list starting at `i`, up to and
/// including the closing parenthesis: whitespace may surround each comma
/// but not the numbers themselves.
pub open spec fn spec_scan_components(s: Seq<char>, i: int, acc: Seq<Decimal>) -> Result<
    (Seq<Decimal>, int),
    ParseErrorView,
>
    decreases s.len() - i,
    via spec_scan_components_decreases
{
    if !(0 <= i < s.len() && spec_is_digit(s[i])) {
        Err(spec_unexpected_at(s, i, seq!["number"@]))
    } else {
        match spec_scan_number(s, i) {
            NumberScan::TooLarge { start, end } => Err(
                ParseErrorView::InvalidNumber {
                    span: Span { start: start as usize, end: end as usize },
                    found: s.subrange(start, end),
                    expected: "number"@,
                },
            ),
            NumberScan::Number { value, is_float: _, end } => {
                let k = spec_skip_ws(s, end);
                if k < s.len() && s[k] == ',' {
                    spec_scan_components(s, spec_skip_ws(s, k + 1), acc.push(value))
                } else if end < s.len() && s[end] == ')' {
                    Ok((acc.push(value), end + 1))
                } else {
                    Err(spec_unexpected_at(s, end, seq![","@, ")"@]))
                }
            },
            NumberScan::Missing => Err(arbitrary()),  // unreachable: a digit stands at `i`
        }
    }
}

#[via_fn]
proof fn spec_scan_components_decreases(s: Seq<char>, i: int, acc: Seq<Decimal>) {
    if 0 <= i < s.len() && spec_is_digit(s[i]) {
        lemma_digits_end_bounds(s, i);
        let j = spec_digits_end(s, i);
        if j < s.len() && s[j] == '.' && j + 1 < s.len() && spec_is_digit(s[j + 1]) {
            lemma_digits_end_bounds(s, j + 1);
            let k = spec_digits_end(s, j + 1);
            lemma_skip_ws_bounds(s, k);
            let w = spec_skip_ws(s, k);
            if w + 1 <= s.len() {
                lemma_skip_ws_bounds(s, w + 1);
            }
        } else {
            lemma_skip_ws_bounds(s, j);
            let w = spec_skip_ws(s, j);
            if w + 1 <= s.len() {
                lemma_skip_ws_bounds(s, w + 1);
            }
        }
    }
}

// ---------------------------------------------------------------------------
// The whole input
// ---------------------------------------------------------------------------

/// The default cube size when no braced size is given: the literal `2.0`.
pub open spec fn spec_default_cube_size() -> Value {
    Value::Float(Decimal { mantissa: 20, scale: 1 })
}

pub open spec fn spec_cube_graph(size: Value) -> NodeGraphView {
    NodeGraphView {
        nodes: seq![NodeView::Cube { id: "cube_0"@, size }],
        connections: Seq::empty(),
    }
}

pub open spec fn spec_value_graph(value: Value) -> NodeGraphView {
    NodeGraphView {
        nodes: seq![NodeView::Value { id: "value_0"@, value }],
        connections: Seq::empty(),
    }
}

/// The named node a parsed form becomes: the single node of the graph; a
/// cube without a braced size takes the default size.
pub open spec fn spec_named_node(p: ParsedNode) -> NodeView {
    match p {
        ParsedNode::Cube { size } => NodeView::Cube {
            id: "cube_0"@,
            size: match size {
                Some(v) => v,
                None => spec_default_cube_size(),
            },
        },
        ParsedNode::Value(value) => NodeView::Value { id: "value_0"@, value },
    }
}

impl ParsedNode {
    /// Names the parsed node as the graph will hold it.
    pub fn into_node(self) -> (r: Node)
        ensures
            r@ == spec_named_node(self),
    {
        match self {
            ParsedNode::Cube { size } => Node::Cube {
                id: NodeId("cube_0".to_owned()),
                size: match size {
                    Some(v) => v,
                    None => Value::Float(Decimal { mantissa: 20, scale: 1 }),
                },
            },
            ParsedNode::Value(value) => Node::Value {
                id: NodeId("value_0".to_owned()),
                value,
            },
        }
    }
}

/// A graph holding exactly the one node.
fn single_node_graph(node: Node) -> (g: NodeGraph)
    ensures
        g@ == (NodeGraphView { nodes: seq![node@], connections: Seq::empty() }),
{
    let ghost n_view = node@;
    let mut graph = NodeGraph::new();
    graph.add_node(node);
    proof {
        assert(graph@.nodes =~= seq![n_view]);
        assert(graph@ =~= (NodeGraphView { nodes: seq![n_view], connections: Seq::empty() }));
    }
    graph
}

/// The parse of a whole input: one node surrounded by whitespace, or the
/// error closest to where the input stops making sense.
pub open spec fn spec_parse(s: Seq<char>) -> Result<NodeGraphView, ParseErrorView> {
    let i = spec_skip_ws(s, 0);
    if spec_match_at(s, i, "cube"@) {
        spec_parse_cube_tail(s, i + 4)
    } else if spec_match_at(s, i, "value"@) {
        match spec_scan_value(s, spec_skip_ws(s, i + 5)) {
            Ok((value, end)) => {
                let p = spec_skip_ws(s, end);
                if p == s.len() {
                    Ok(spec_value_graph(value))
                } else {
                    Err(spec_unexpected_at(s, p, Seq::empty()))
                }
            },
            Err(e) => Err(e),
        }
    } else if i == s.len() {
        Err(
            ParseErrorView::UnexpectedEndOfInput {
                span: Span { start: 0, end: s.len() as usize },
                expected: seq!["cube"@, "value"@],
            },
        )
    } else {
        Err(spec_unexpected_at(s, i, seq!["cube"@, "value"@]))
    }
}

/// What follows the `cube` keyword: nothing (the default size), or a
/// braced size.
pub open spec fn spec_parse_cube_tail(s: Seq<char>, after_keyword: int) -> Result<
    NodeGraphView,
    ParseErrorView,
> {
    let j = spec_skip_ws(s, after_keyword);
    if j == s.len() {
        Ok(spec_cube_graph(spec_default_cube_size()))
    } else if s[j] == '{' {
        let k = spec_skip_ws(s, j + 1);
        if spec_match_at(s, k, "size:"@) {
            match spec_scan_value(s, spec_skip_ws(s, k + 5)) {
                Ok((size, end)) => {
                    let p = spec_skip_ws(s, end);
                    if p < s.len() && s[p] == '}' {
                        let q = spec_skip_ws(s, p + 1);
                        if q == s.len() {
                            Ok(spec_cube_graph(size))
                        } else {
                            Err(spec_unexpected_at(s, q, Seq::empty()))
                        }
                    } else {
                        Err(spec_unexpected_at(s, p, seq!["}"@]))
                    }
                },
                Err(e) => Err(e),
            }
        } else {
            Err(spec_unexpected_at(s, k, seq!["size:"@]))
        }
    } else {
        Err(spec_unexpected_at(s, j, seq!["{"@]))
    }
}

// ---------------------------------------------------------------------------
// Executable scanning
// ---------------------------------------------------------------------------

/// The input's characters, in order.
fn chars_of(s: &str) -> (r: Vec<char>)
    ensures
        r@ == s@,
{
    let n = s.unicode_len();
    let mut r: Vec<char> = Vec::new();
    let mut i: usize = 0;
    while i < n
        invariant
            i <= n,
            n == s@.len(),
            r@ == s@.take(i as int),
        decreases n - i,
    {
        r.push(s.get_char(i));
        proof {
            assert(r@ =~= s@.take(i + 1));
        }
        i = i + 1;
    }
    proof {
        assert(s@.take(n as int) =~= s@);
    }
    r
}

/// The text of `chars[start..end)`.
fn chars_string(chars: &Vec<char>, start: usize, end: usize) -> (r: String)
    requires
        start <= end <= chars@.len(),
    ensures
        r@ == chars@.subrange(start as int, end as int),
{
    let mut r = String::new();
    let mut i: usize = start;
    while i < end
        invariant
            start <= i <= end <= chars@.len(),
            r@ == chars@.subrange(start as int, i as int),
        decreases end - i,
    {
        push_char(&mut r, chars[i]);
        proof {
            assert(r@ =~= chars@.subrange(start as int, i + 1));
        }
        i = i + 1;
    }
    r
}

fn is_ws(c: char) -> (r: bool)
    ensures
        r == spec_is_ws(c),
{
    c == ' ' || c == '\t' || c == '\n' || c == '\r'
}

fn is_digit(c: char) -> (r: bool)
    ensures
        r == spec_is_digit(c),
{
    let code = c as u32;
    48 <= code && code <= 57
}

fn skip_ws(chars: &Vec<char>, start: usize) -> (r: usize)
    requires
        start <= chars@.len(),
    ensures
        r == spec_skip_ws(chars@, start as int),
        start <= r <= chars@.len(),
{
    let mut i = start;
    while i < chars.len() && is_ws(chars[i])
        invariant
            start <= i <= chars@.len(),
            spec_skip_ws(chars@, start as int) == spec_skip_ws(chars@, i as int),
        decreases chars@.len() - i,
    {
        i = i + 1;
    }
    i
}

fn digits_end(chars: &Vec<char>, start: usize) -> (r: usize)
    requires
        start <= chars@.len(),
    ensures
        r == spec_digits_end(chars@, start as int),
        start <= r <= chars@.len(),
{
    let mut i = start;
    while i < chars.len() && is_digit(chars[i])
        invariant
            start <= i <= chars@.len(),
            spec_digits_end(chars@, start as int) == spec_digits_end(chars@, i as int),
        decreases chars@.len() - i,
    {
        i = i + 1;
    }
    i
}

/// Appends the digits of `chars[start..end)` after `acc`, watching for
/// the mantissa bound.
fn fold_digits(
    chars: &Vec<char>,
    start: usize,
    end: usize,
    acc: u64,
    over: bool,
    Ghost(base): Ghost<int>,
) -> (r: (u64, bool))
    requires
        start <= end <= chars@.len(),
        forall|k: int| start <= k < end ==> spec_is_digit(#[trigger] chars@[k]),
        0 <= base,
        !over ==> acc as int == base && base <= i64::MAX,
        over ==> base > i64::MAX,
        acc <= i64::MAX as u64,
    ensures
        ({
            let v = spec_digits_fold(base, chars@, start as int, end as int);
            &&& (!r.1 ==> r.0 as int == v && v <= i64::MAX)
            &&& (r.1 ==> v > i64::MAX)
            &&& r.0 <= i64::MAX as u64
        }),
{
    let mut acc = acc;
    let mut over = over;
    let mut i = start;
    while i < end
        invariant
            start <= i <= end <= chars@.len(),
            forall|k: int| start <= k < end ==> spec_is_digit(#[trigger] chars@[k]),
            0 <= base,
            acc <= i64::MAX as u64,
            !over ==> acc as int == spec_digits_fold(base, chars@, start as int, i as int),
            over ==> spec_digits_fold(base, chars@, start as int, i as int) > i64::MAX,
        decreases end - i,
    {
        let c = chars[i];
        let d = (c as u32 - 48) as u64;
        if !over {
            let wide: u128 = acc as u128 * 10 + d as u128;
            if wide > i64::MAX as u128 {
                over = true;
                proof {
                    assert(spec_digits_fold(base, chars@, start as int, i + 1) == acc as int * 10
                        + spec_digit_val(chars@[i as int]));
                }
            } else {
                acc = wide as u64;
            }
        } else {
            proof {
                lemma_digits_fold_ge_base(base, chars@, start as int, i as int);
                assert(spec_digits_fold(base, chars@, start as int, i + 1) == spec_digits_fold(
                    base,
                    chars@,
                    start as int,
                    i as int,
                ) * 10 + spec_digit_val(chars@[i as int]));
                assert(spec_digit_val(chars@[i as int]) >= 0);
            }
        }
        i = i + 1;
    }
    (acc, over)
}

/// The scan of a number literal at `i`: the decimal and the position
/// after it, or the span of a literal too large for the mantissa.
fn scan_number(chars: &Vec<char>, i: usize) -> (r: Result<(Decimal, bool, usize), (usize, usize)>)
    requires
        i < chars@.len(),
        spec_is_digit(chars@[i as int]),
    ensures
        match r {
            Ok((value, is_float, end)) => spec_scan_number(chars@, i as int)
                == (NumberScan::Number { value, is_float, end: end as int }) && i < end
                <= chars@.len(),
            Err((start, end)) => spec_scan_number(chars@, i as int) == (NumberScan::TooLarge {
                start: start as int,
                end: end as int,
            }) && start == i && i < end <= chars@.len(),
        },
{
    let j = digits_end(chars, i);
    proof {
        lemma_digits_end_bounds(chars@, i as int);
        assert(spec_digits_end(chars@, i as int) == spec_digits_end(chars@, i + 1));
        lemma_digits_end_bounds(chars@, i + 1);
    }
    let (int_acc, int_over) = fold_digits(chars, i, j, 0, false, Ghost(0));
    if j < chars.len() && chars[j] == '.' && j + 1 < chars.len() && is_digit(chars[j + 1]) {
        let k = digits_end(chars, j + 1);
        proof {
            lemma_digits_end_bounds(chars@, j + 1);
        }
        let ghost int_val = spec_digits_fold(0, chars@, i as int, j as int);
        let (mantissa, over) = fold_digits(chars, j + 1, k, int_acc, int_over, Ghost(int_val));
        if over {
            Err((i, k))
        } else {
            Ok((Decimal { mantissa: mantissa as i64, scale: k - (j + 1) }, true, k))
        }
    } else {
        if int_over {
            Err((i, j))
        } else {
            Ok((Decimal { mantissa: int_acc as i64, scale: 0 }, false, j))
        }
    }
}

/// Whether the token stands at position `i`.
fn match_at(chars: &Vec<char>, i: usize, token: &str) -> (r: bool)
    requires
        i <= chars@.len(),
    ensures
        r == spec_match_at(chars@, i as int, token@),
{
    let token_len = token.unicode_len();
    if chars.len() - i < token_len {
        return false;
    }
    let mut k: usize = 0;
    while k < token_len
        invariant
            k <= token_len,
            token_len == token@.len(),
            i + token_len <= chars@.len(),
            chars@.len() <= usize::MAX,
            forall|m: int| 0 <= m < k ==> chars@[i + m] == #[trigger] token@[m],
        decreases token_len - k,
    {
        if chars[i + k] != token.get_char(k) {
            return false;
        }
        k = k + 1;
    }
    true
}

/// Builds the error for an unexpected character (or the input's end).
fn unexpected_at(chars: &Vec<char>, i: usize, expected: Vec<String>) -> (r: ParseError)
    requires
        i <= chars@.len(),
    ensures
        r@ == spec_unexpected_at(chars@, i as int, expected.deep_view()),
{
    if i < chars.len() {
        ParseError::UnexpectedToken {
            span: Span { start: i, end: i + 1 },
            found: Some(chars[i]),
            expected,
        }
    } else {
        ParseError::UnexpectedEndOfInput { span: Span { start: i, end: i }, expected }
    }
}

/// The scan of a comma-separated number list, up to and including the
/// closing parenthesis.
fn scan_components(chars: &Vec<char>, i: usize) -> (r: Result<(Vec<Decimal>, usize), ParseError>)
    requires
        i <= chars@.len(),
    ensures
        match r {
            Ok((components, end)) => spec_scan_components(chars@, i as int, Seq::empty()) == Ok::<
                _,
                ParseErrorView,
            >((components@, end as int)) && end <= chars@.len(),
            Err(e) => spec_scan_components(chars@, i as int, Seq::empty()) matches Err(ev) && ev
                == e@,
        },
{
    let mut acc: Vec<Decimal> = Vec::new();
    let mut cur = i;
    proof {
        assert(acc@ =~= Seq::<Decimal>::empty());
    }
    loop
        invariant
            cur <= chars@.len(),
            spec_scan_components(chars@, i as int, Seq::empty()) == spec_scan_components(
                chars@,
                cur as int,
                acc@,
            ),
        decreases chars@.len() - cur,
    {
        if !(cur < chars.len() && is_digit(chars[cur])) {
            let mut expected: Vec<String> = Vec::new();
            expected.push("number".to_owned());
            proof {
                assert(expected.deep_view() =~= seq!["number"@]);
            }
            let e = unexpected_at(chars, cur, expected);
            return Err(e);
        }
        match scan_number(chars, cur) {
            Err((start, end)) => {
                let found = chars_string(chars, start, end);
                return Err(
                    ParseError::InvalidNumber {
                        span: Span { start, end },
                        found,
                        expected: "number".to_owned(),
                    },
                );
            },
            Ok((value, _is_float, end)) => {
                let k = skip_ws(chars, end);
                if k < chars.len() && chars[k] == ',' {
                    let next = skip_ws(chars, k + 1);
                    acc.push(value);
                    cur = next;
                } else if end < chars.len() && chars[end] == ')' {
                    acc.push(value);
                    return Ok((acc, end + 1));
                } else {
                    let mut expected: Vec<String> = Vec::new();
                    expected.push(",".to_owned());
                    expected.push(")".to_owned());
                    proof {
                        assert(expected.deep_view() =~= seq![","@, ")"@]);
                    }
                    let e = unexpected_at(chars, end, expected);
                    return Err(e);
                }
            },
        }
    }
}

/// The scan of a value at `i`.
fn scan_value(chars: &Vec<char>, i: usize) -> (r: Result<(Value, usize), ParseError>)
    requires
        i <= chars@.len(),
    ensures
        match r {
            Ok((value, end)) => spec_scan_value(chars@, i as int) == Ok::<_, ParseErrorView>(
                (value, end as int),
            ) && end <= chars@.len(),
            Err(e) => spec_scan_value(chars@, i as int) matches Err(ev) && ev == e@,
        },
{
    if i < chars.len() && is_digit(chars[i]) {
        match scan_number(chars, i) {
            Err((start, end)) => {
                let found = chars_string(chars, start, end);
                Err(
                    ParseError::InvalidNumber {
                        span: Span { start, end },
                        found,
                        expected: "number".to_owned(),
                    },
                )
            },
            Ok((value, is_float, end)) => {
                if is_float {
                    Ok((Value::Float(value), end))
                } else {
                    Ok((Value::Integer(value.mantissa), end))
                }
            },
        }
    } else if match_at(chars, i, "true") {
        proof {
            reveal_strlit("true");
        }
        Ok((Value::Boolean(true), i + 4))
    } else if match_at(chars, i, "false") {
        proof {
            reveal_strlit("false");
        }
        Ok((Value::Boolean(false), i + 5))
    } else if i < chars.len() && chars[i] == '(' {
        match scan_components(chars, i + 1) {
            Ok((components, end)) => {
                if components.len() == 3 {
                    Ok((Value::Vector(components[0], components[1], components[2]), end))
                } else if components.len() == 4 {
                    Ok(
                        (
                            Value::Color(
                                components[0],
                                components[1],
                                components[2],
                                components[3],
                            ),
                            end,
                        ),
                    )
                } else if components.len() < 3 {
                    Err(
                        ParseError::InvalidVector {
                            span: Span { start: i, end },
                            found_components: components.len(),
                            expected_components: 3,
                        },
                    )
                } else {
                    Err(
                        ParseError::InvalidColor {
                            span: Span { start: i, end },
                            found_components: components.len(),
                            expected_components: 4,
                        },
                    )
                }
            },
            Err(e) => Err(e),
        }
    } else {
        let mut expected: Vec<String> = Vec::new();
        expected.push("number".to_owned());
        expected.push("boolean".to_owned());
        expected.push("vector".to_owned());
        expected.push("color".to_owned());
        proof {
            assert(expected.deep_view() =~= seq!["number"@, "boolean"@, "vector"@, "color"@]);
        }
        let e = unexpected_at(chars, i, expected);
        Err(e)
    }
}

// ---------------------------------------------------------------------------
// The parser
// ---------------------------------------------------------------------------

/// Parses one node-graph input. Success yields a graph holding exactly
/// the one parsed node; failure yields the error at the position where
/// the input stops following the grammar.
pub fn parse_geometry_nodes(input: &str) -> (r: ParseResult<NodeGraph>)
    ensures
        match r {
            Ok(g) => spec_parse(input@) == Ok::<_, ParseErrorView>(g@),
            Err(es) => es@.len() == 1 && (spec_parse(input@) matches Err(ev) && ev == es@[0]@),
        },
{
    let chars = chars_of(input);
    let i = skip_ws(&chars, 0);
    if match_at(&chars, i, "cube") {
        proof {
            reveal_strlit("cube");
        }
        match parse_cube_tail(&chars, i + 4) {
            Ok(g) => Ok(g),
            Err(e) => {
                let mut es: Vec<ParseError> = Vec::new();
                es.push(e);
                Err(es)
            },
        }
    } else if match_at(&chars, i, "value") {
        proof {
            reveal_strlit("value");
        }
        let j = skip_ws(&chars, i + 5);
        match scan_value(&chars, j) {
            Ok((value, end)) => {
                let p = skip_ws(&chars, end);
                if p == chars.len() {
                    let graph = single_node_graph(ParsedNode::Value(value).into_node());
                    proof {
                        assert(graph@ =~= spec_value_graph(value));
                    }
                    Ok(graph)
                } else {
                    let expected: Vec<String> = Vec::new();
                    proof {
                        assert(expected.deep_view() =~= Seq::<Seq<char>>::empty());
                    }
                    let e = unexpected_at(&chars, p, expected);
                    let mut es: Vec<ParseError> = Vec::new();
                    es.push(e);
                    Err(es)
                }
            },
            Err(e) => {
                let mut es: Vec<ParseError> = Vec::new();
                es.push(e);
                Err(es)
            },
        }
    } else if i == chars.len() {
        let mut expected: Vec<String> = Vec::new();
        expected.push("cube".to_owned());
        expected.push("value".to_owned());
        proof {
            assert(expected.deep_view() =~= seq!["cube"@, "value"@]);
        }
        let e = ParseError::UnexpectedEndOfInput {
            span: Span { start: 0, end: chars.len() },
            expected,
        };
        let mut es: Vec<ParseError> = Vec::new();
        es.push(e);
        Err(es)
    } else {
        let mut expected: Vec<String> = Vec::new();
        expected.push("cube".to_owned());
        expected.push("value".to_owned());
        proof {
            assert(expected.deep_view() =~= seq!["cube"@, "value"@]);
        }
        let e = unexpected_at(&chars, i, expected);
        let mut es: Vec<ParseError> = Vec::new();
        es.push(e);
        Err(es)
    }
}

/// What follows the `cube` keyword.
fn parse_cube_tail(chars: &Vec<char>, after_keyword: usize) -> (r: Result<NodeGraph, ParseError>)
    requires
        after_keyword <= chars@.len(),
    ensures
        match r {
            Ok(g) => spec_parse_cube_tail(chars@, after_keyword as int) == Ok::<
                _,
                ParseErrorView,
            >(g@),
            Err(e) => spec_parse_cube_tail(chars@, after_keyword as int) matches Err(ev) && ev
                == e@,
        },
{
    let j = skip_ws(chars, after_keyword);
    if j == chars.len() {
        let graph = single_node_graph(ParsedNode::Cube { size: None }.into_node());
        proof {
            assert(graph@ =~= spec_cube_graph(spec_default_cube_size()));
        }
        Ok(graph)
    } else if chars[j] == '{' {
        let k = skip_ws(chars, j + 1);
        if match_at(chars, k, "size:") {
            proof {
                reveal_strlit("size:");
            }
            let m = skip_ws(chars, k + 5);
            match scan_value(chars, m) {
                Ok((size, end)) => {
                    let p = skip_ws(chars, end);
                    if p < chars.len() && chars[p] == '}' {
                        let q = skip_ws(chars, p + 1);
                        if q == chars.len() {
                            let graph = single_node_graph(
                                ParsedNode::Cube { size: Some(size) }.into_node(),
                            );
                            proof {
                                assert(graph@ =~= spec_cube_graph(size));
                            }
                            Ok(graph)
                        } else {
                            let expected: Vec<String> = Vec::new();
                            proof {
                                assert(expected.deep_view() =~= Seq::<Seq<char>>::empty());
                            }
                            let e = unexpected_at(chars, q, expected);
                            Err(e)
                        }
                    } else {
                        let mut expected: Vec<String> = Vec::new();
                        expected.push("}".to_owned());
                        proof {
                            assert(expected.deep_view() =~= seq!["}"@]);
                        }
                        let e = unexpected_at(chars, p, expected);
                        Err(e)
                    }
                },
                Err(e) => Err(e),
            }
        } else {
            let mut expected: Vec<String> = Vec::new();
            expected.push("size:".to_owned());
            proof {
                assert(expected.deep_view() =~= seq!["size:"@]);
            }
            let e = unexpected_at(chars, k, expected);
            Err(e)
        }
    } else {
        let mut expected: Vec<String> = Vec::new();
        expected.push("{".to_owned());
        proof {
            assert(expected.deep_view() =~= seq!["{"@]);
        }
        let e = unexpected_at(chars, j, expected);
        Err(e)
    }
}

} // verus!
