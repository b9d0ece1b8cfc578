//! The kinds of failure of one validation call.
//!
//! A validation call is all or nothing: the first rule that is violated ends the
//! call with one of these kinds, and nothing is retried.

use vstd::prelude::*;

verus! {

/// Why a validation call was rejected.
#[derive(Debug, Clone, Copy, PartialEq, Eq, Structural)]
pub enum ErrorCode {
    /// The input term does not have the list or pair shape expected of a spend
    /// or of a condition.
    StructuralError,
    /// A condition carries an opcode that is not known, and unknown conditions
    /// are rejected.
    UnknownOpcode,
    /// A condition carries the wrong number of arguments.
    ArgumentCountMismatch,
    /// The running cost went over the budget.
    CostExceeded,
    /// The aggregate signature does not satisfy the signature-bearing
    /// conditions.
    SignatureMismatch,
    /// Adding up fees or amounts would overflow their numeric width.
    ArithmeticOverflow,
    /// The program evaluator itself failed.
    EvaluatorError,
}

} // verus!
