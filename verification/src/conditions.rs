//! The flag-dependent rules by which one condition of a spend is admitted.
//!
//! Block validation and mempool admission differ in how they treat a condition
//! whose opcode is unknown, one that carries more arguments than its opcode
//! requires, and the signature-bearing conditions. Each rule here takes the
//! flags and the facts about the condition, and says whether parsing goes on.

use crate::flags::{
    ConsensusFlags, DONT_VALIDATE_SIGNATURE, MEMPOOL_MODE, NO_UNKNOWN_CONDS, STRICT_ARGS_COUNT,
};
use crate::validation_error::ErrorCode;
use vstd::prelude::*;

verus! {

/// What the parser does with a condition that it admitted.
#[derive(Debug, Clone, Copy, PartialEq, Eq, Structural)]
pub enum Admission {
    /// The opcode is known and the arguments have an accepted count: the
    /// condition is decoded.
    Decode,
    /// The opcode is unknown and tolerated: the condition is passed over.
    Ignore,
}

/// Whether `given` arguments are accepted for an opcode that requires
/// `required`. Missing arguments are never accepted; arguments in excess are
/// accepted unless the strict argument count is enforced.
pub open spec fn arg_count_accepted(flag_bits: u32, required: nat, given: nat) -> bool {
    if flag_bits & STRICT_ARGS_COUNT == STRICT_ARGS_COUNT {
        given == required
    } else {
        given >= required
    }
}

/// Whether a condition with an unknown opcode is tolerated.
pub open spec fn unknown_opcode_tolerated(flag_bits: u32) -> bool {
    flag_bits & NO_UNKNOWN_CONDS != NO_UNKNOWN_CONDS
}

/// Whether the aggregate signature is matched against the signature-bearing
/// conditions at all.
pub open spec fn signature_validated(flag_bits: u32) -> bool {
    flag_bits & DONT_VALIDATE_SIGNATURE != DONT_VALIDATE_SIGNATURE
}

/// The verdict on one condition. `required` is the number of arguments that the
/// opcode requires, or `None` for an unknown opcode; `given` is the number of
/// arguments that the condition carries.
pub open spec fn admission(flag_bits: u32, required: Option<nat>, given: nat) -> Result<
    Admission,
    ErrorCode,
> {
    match required {
        None => if unknown_opcode_tolerated(flag_bits) {
            Ok(Admission::Ignore)
        } else {
            Err(ErrorCode::UnknownOpcode)
        },
        Some(n) => if arg_count_accepted(flag_bits, n, given) {
            Ok(Admission::Decode)
        } else {
            Err(ErrorCode::ArgumentCountMismatch)
        },
    }
}

/// Applies the argument-count rule to a condition whose opcode requires
/// `required` arguments and that carries `given`.
pub fn check_arg_count(flags: ConsensusFlags, required: usize, given: usize) -> (r: Result<
    (),
    ErrorCode,
>)
    ensures
        r is Ok <==> arg_count_accepted(flags@, required as nat, given as nat),
        r is Err ==> r == Err::<(), ErrorCode>(ErrorCode::ArgumentCountMismatch),
{
    if given < required {
        Err(ErrorCode::ArgumentCountMismatch)
    } else if given > required && flags.contains(ConsensusFlags::strict_args_count()) {
        Err(ErrorCode::ArgumentCountMismatch)
    } else {
        Ok(())
    }
}

/// Applies the unknown-opcode rule to a condition whose opcode is not known.
pub fn check_unknown_opcode(flags: ConsensusFlags) -> (r: Result<(), ErrorCode>)
    ensures
        r is Ok <==> unknown_opcode_tolerated(flags@),
        r is Err ==> r == Err::<(), ErrorCode>(ErrorCode::UnknownOpcode),
{
    if flags.contains(ConsensusFlags::no_unknown_conds()) {
        Err(ErrorCode::UnknownOpcode)
    } else {
        Ok(())
    }
}

/// Decides what the parser does with one condition: decode it, pass over it, or
/// reject the whole call.
pub fn admit_condition(flags: ConsensusFlags, required: Option<usize>, given: usize) -> (r: Result<
    Admission,
    ErrorCode,
>)
    ensures
        r == admission(
            flags@,
            match required {
                Some(n) => Some(n as nat),
                None => None,
            },
            given as nat,
        ),
{
    match required {
        None => match check_unknown_opcode(flags) {
            Ok(_) => Ok(Admission::Ignore),
            Err(e) => Err(e),
        },
        Some(n) => match check_arg_count(flags, n, given) {
            Ok(_) => Ok(Admission::Decode),
            Err(e) => Err(e),
        },
    }
}

/// Whether the signature verifier has to be consulted under these flags.
pub fn validates_signature(flags: ConsensusFlags) -> (r: bool)
    ensures
        r == signature_validated(flags@),
{
    !flags.contains(ConsensusFlags::dont_validate_signature())
}

/// Applies the signature rule. `signature_matches` is the answer of the
/// signature verifier; it is not looked at when signature validation is
/// skipped.
pub fn check_signature(flags: ConsensusFlags, signature_matches: bool) -> (r: Result<
    (),
    ErrorCode,
>)
    ensures
        r is Ok <==> (!signature_validated(flags@) || signature_matches),
        r is Err ==> r == Err::<(), ErrorCode>(ErrorCode::SignatureMismatch),
{
    if validates_signature(flags) && !signature_matches {
        Err(ErrorCode::SignatureMismatch)
    } else {
        Ok(())
    }
}

/// A wrong argument count is rejected under the strict argument count; without
/// it, it is accepted exactly when the arguments are merely in excess.
pub proof fn lemma_wrong_arg_count(flag_bits: u32, required: nat, given: nat)
    requires
        given != required,
    ensures
        flag_bits & STRICT_ARGS_COUNT == STRICT_ARGS_COUNT ==> !arg_count_accepted(
            flag_bits,
            required,
            given,
        ),
        flag_bits & STRICT_ARGS_COUNT != STRICT_ARGS_COUNT ==> (arg_count_accepted(
            flag_bits,
            required,
            given,
        ) <==> given > required),
{
}

/// Mempool mode rejects every unknown opcode and every argument count but the
/// exact one.
pub proof fn lemma_mempool_mode_admission(required: Option<nat>, given: nat)
    ensures
        required is None ==> admission(MEMPOOL_MODE, required, given) == Err::<
            Admission,
            ErrorCode,
        >(ErrorCode::UnknownOpcode),
        required matches Some(n) ==> (admission(MEMPOOL_MODE, required, given) is Ok <==> given
            == n),
{
    assert(MEMPOOL_MODE & NO_UNKNOWN_CONDS == NO_UNKNOWN_CONDS) by (bit_vector);
    assert(MEMPOOL_MODE & STRICT_ARGS_COUNT == STRICT_ARGS_COUNT) by (bit_vector);
}

} // verus!
