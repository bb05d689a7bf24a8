//! Validating a tokenized calculation and deciding its outcome.
//!
//! A line is evaluated in two steps. [`split_input`] tokenizes the line and
//! demands exactly three tokens, `<number> <operator> <number>`. The two
//! operand tokens must then be classified by the caller, who parses them as
//! 64-bit floats (an operation this library does not perform itself): each is
//! not a number, exactly zero, or a non-zero number. [`decide`] takes the
//! classified expression and returns the operation to apply, or the error the
//! line deserves.

use vstd::prelude::*;

use crate::tokens::split_ws;
use crate::tokens::tokenize;

verus! {

/// One of the four supported arithmetic operations.
#[derive(Clone, Copy, Debug, PartialEq, Eq, Structural)]
pub enum Op {
    Add,
    Sub,
    Mul,
    Div,
}

/// What a numeric token's text denotes: not a 64-bit float at all, a float
/// equal to zero, or a non-zero float. This is all the evaluation policy ever
/// reads of an operand; the parsed value itself never enters the decision.
#[derive(Clone, Copy, Debug, PartialEq, Eq, Structural)]
pub enum NumClass {
    NotNumeric,
    Zero,
    NonZero,
}

/// Why a line was rejected.
#[derive(Debug, PartialEq, Eq)]
pub enum CalcError {
    /// The line does not have exactly three tokens.
    FormatError,
    /// An operand token (carried verbatim) is not a valid number.
    NumberParseError(String),
    /// The operator token (carried verbatim) is not one of the four supported.
    UnsupportedOperatorError(String),
    /// Division with a right operand equal to zero.
    DivisionByZeroError,
}

/// The mathematical shadow of [`CalcError`]: the same variants over character
/// sequences instead of owned strings.
pub enum ErrorView {
    FormatError,
    NumberParseError(Seq<char>),
    UnsupportedOperatorError(Seq<char>),
    DivisionByZeroError,
}

impl View for CalcError {
    type V = ErrorView;

    open spec fn view(&self) -> ErrorView {
        match self {
            CalcError::FormatError => ErrorView::FormatError,
            CalcError::NumberParseError(t) => ErrorView::NumberParseError(t@),
            CalcError::UnsupportedOperatorError(t) => ErrorView::UnsupportedOperatorError(t@),
            CalcError::DivisionByZeroError => ErrorView::DivisionByZeroError,
        }
    }
}

/// A line split into its three tokens, in order: left operand text, operator
/// text, right operand text.
#[derive(Debug)]
pub struct Expr {
    pub left: String,
    pub op: String,
    pub right: String,
}

/// The operation an operator token selects, if any: exactly the four
/// one-character tokens `+`, `-`, `*` and `/`.
pub open spec fn op_of(s: Seq<char>) -> Option<Op> {
    if s.len() == 1 && s[0] == '+' {
        Some(Op::Add)
    } else if s.len() == 1 && s[0] == '-' {
        Some(Op::Sub)
    } else if s.len() == 1 && s[0] == '*' {
        Some(Op::Mul)
    } else if s.len() == 1 && s[0] == '/' {
        Some(Op::Div)
    } else {
        None
    }
}

/// The outcome of evaluating a three-token line whose operands were classified
/// as `lc` and `rc`. The checks happen in the order the tokens stand in the
/// line's reading: left operand, right operand, operator, division by zero.
pub open spec fn decide_of(
    left: Seq<char>,
    op: Seq<char>,
    right: Seq<char>,
    lc: NumClass,
    rc: NumClass,
) -> Result<Op, ErrorView> {
    if lc is NotNumeric {
        Err(ErrorView::NumberParseError(left))
    } else if rc is NotNumeric {
        Err(ErrorView::NumberParseError(right))
    } else {
        match op_of(op) {
            None => Err(ErrorView::UnsupportedOperatorError(op)),
            Some(o) => if o is Div && rc is Zero {
                Err(ErrorView::DivisionByZeroError)
            } else {
                Ok(o)
            },
        }
    }
}

/// The view of an evaluation result.
pub open spec fn result_view(r: Result<Op, CalcError>) -> Result<Op, ErrorView> {
    match r {
        Ok(o) => Ok(o),
        Err(e) => Err(e@),
    }
}

/// The whole evaluation policy for one line: exactly three whitespace-separated
/// tokens, then [`decide_of`] on them under the operand classes `lc` and `rc`.
pub open spec fn eval_outcome(input: Seq<char>, lc: NumClass, rc: NumClass) -> Result<
    Op,
    ErrorView,
> {
    let toks = split_ws(input);
    if toks.len() != 3 {
        Err(ErrorView::FormatError)
    } else {
        decide_of(toks[0], toks[1], toks[2], lc, rc)
    }
}

/// Parse an operator token.
pub fn parse_op(tok: &str) -> (r: Option<Op>)
    ensures
        r == op_of(tok@),
{
    if tok.unicode_len() != 1 {
        return None;
    }
    let c = tok.get_char(0);
    if c == '+' {
        Some(Op::Add)
    } else if c == '-' {
        Some(Op::Sub)
    } else if c == '*' {
        Some(Op::Mul)
    } else if c == '/' {
        Some(Op::Div)
    } else {
        None
    }
}

/// Split a line into the three tokens of a calculation, rejecting any other
/// token count.
pub fn split_input(input: &str) -> (r: Result<Expr, CalcError>)
    ensures
        ({
            let toks = split_ws(input@);
            match r {
                Ok(e) => toks.len() == 3 && e.left@ == toks[0] && e.op@ == toks[1] && e.right@
                    == toks[2],
                Err(e) => toks.len() != 3 && e@ is FormatError,
            }
        }),
{
    let mut tokens = tokenize(input);
    if tokens.len() != 3 {
        return Err(CalcError::FormatError);
    }
    let right = tokens.pop().unwrap();
    let op = tokens.pop().unwrap();
    let left = tokens.pop().unwrap();
    Ok(Expr { left, op, right })
}

/// Decide what a three-token line evaluates to, given the classification of
/// its two operand tokens.
pub fn decide(e: &Expr, lc: NumClass, rc: NumClass) -> (r: Result<Op, CalcError>)
    ensures
        result_view(r) == decide_of(e.left@, e.op@, e.right@, lc, rc),
{
    if matches!(lc, NumClass::NotNumeric) {
        return Err(CalcError::NumberParseError(e.left.clone()));
    }
    if matches!(rc, NumClass::NotNumeric) {
        return Err(CalcError::NumberParseError(e.right.clone()));
    }
    match parse_op(e.op.as_str()) {
        None => Err(CalcError::UnsupportedOperatorError(e.op.clone())),
        Some(o) => if matches!(o, Op::Div) && matches!(rc, NumClass::Zero) {
            Err(CalcError::DivisionByZeroError)
        } else {
            Ok(o)
        },
    }
}

/// The message text of each error, as the calculator prints it.
pub open spec fn message_of(e: ErrorView) -> Seq<char> {
    match e {
        ErrorView::FormatError => "Format should be: number operator number"@,
        ErrorView::NumberParseError(t) => "'"@ + t + "' is not a valid number"@,
        ErrorView::UnsupportedOperatorError(t) => "Unsupported operator: "@ + t,
        ErrorView::DivisionByZeroError => "Cannot divide by zero!"@,
    }
}

impl CalcError {
    /// Render the error as its message text.
    pub fn message(&self) -> (m: String)
        ensures
            m@ == message_of(self@),
    {
        match self {
            CalcError::FormatError => "Format should be: number operator number".to_owned(),
            CalcError::NumberParseError(t) => {
                let mut m = "'".to_owned();
                m.append(t.as_str());
                m.append("' is not a valid number");
                m
            },
            CalcError::UnsupportedOperatorError(t) => {
                let mut m = "Unsupported operator: ".to_owned();
                m.append(t.as_str());
                m
            },
            CalcError::DivisionByZeroError => "Cannot divide by zero!".to_owned(),
        }
    }
}

} // verus!
