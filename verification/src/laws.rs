//! The guarantees of the evaluation policy, stated over whole classes of
//! input lines.

use vstd::prelude::*;

use crate::eval::ErrorView;
use crate::eval::NumClass;
use crate::eval::Op;
use crate::eval::eval_outcome;
use crate::eval::op_of;
use crate::tokens::split_ws;

verus! {

/// Every well-formed line succeeds: if it has exactly three tokens, both
/// operand tokens denote numbers, the operator token selects an operation,
/// and that operation is not a division by a zero right operand, then the
/// outcome is that operation.
pub proof fn lemma_well_formed_succeeds(input: Seq<char>, lc: NumClass, rc: NumClass, op: Op)
    requires
        split_ws(input).len() == 3,
        !(lc is NotNumeric),
        !(rc is NotNumeric),
        op_of(split_ws(input)[1]) == Some(op),
        !(op is Div && rc is Zero),
    ensures
        eval_outcome(input, lc, rc) == Ok::<Op, ErrorView>(op),
{
}

/// Every line without exactly three tokens is rejected as malformed, whatever
/// its operand tokens would have denoted.
pub proof fn lemma_wrong_token_count_rejected(input: Seq<char>, lc: NumClass, rc: NumClass)
    requires
        split_ws(input).len() != 3,
    ensures
        eval_outcome(input, lc, rc) == Err::<Op, ErrorView>(ErrorView::FormatError),
{
}

/// Every three-token line with an operand that does not denote a number is
/// rejected with that operand's exact token text: the left operand first, the
/// right one only when the left denotes a number.
pub proof fn lemma_bad_operand_rejected(input: Seq<char>, lc: NumClass, rc: NumClass)
    requires
        split_ws(input).len() == 3,
        lc is NotNumeric || rc is NotNumeric,
    ensures
        lc is NotNumeric ==> eval_outcome(input, lc, rc) == Err::<Op, ErrorView>(
            ErrorView::NumberParseError(split_ws(input)[0]),
        ),
        !(lc is NotNumeric) ==> eval_outcome(input, lc, rc) == Err::<Op, ErrorView>(
            ErrorView::NumberParseError(split_ws(input)[2]),
        ),
{
}

/// Every three-token line over numeric operands whose operator token selects
/// no operation is rejected with that token's exact text.
pub proof fn lemma_bad_operator_rejected(input: Seq<char>, lc: NumClass, rc: NumClass)
    requires
        split_ws(input).len() == 3,
        !(lc is NotNumeric),
        !(rc is NotNumeric),
        op_of(split_ws(input)[1]) is None,
    ensures
        eval_outcome(input, lc, rc) == Err::<Op, ErrorView>(
            ErrorView::UnsupportedOperatorError(split_ws(input)[1]),
        ),
{
}

/// Every three-token division with a zero right operand is rejected as a
/// division by zero.
pub proof fn lemma_division_by_zero_rejected(input: Seq<char>, lc: NumClass)
    requires
        split_ws(input).len() == 3,
        !(lc is NotNumeric),
        op_of(split_ws(input)[1]) == Some(Op::Div),
    ensures
        eval_outcome(input, lc, NumClass::Zero) == Err::<Op, ErrorView>(
            ErrorView::DivisionByZeroError,
        ),
{
}

} // verus!
