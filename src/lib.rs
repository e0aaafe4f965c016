//! Execution contract for native precompiles of an EVM interpreter, the linear
//! gas-cost rule that gates them, and the hash and signature-recovery routines
//! that serve as their bodies.

mod exit;
mod precompile;
mod utils;

pub use exit::{
    ExitError, ExitFatal, ExitRevert, ExitSucceed, Log, PrecompileFailure, PrecompileOutput,
    PrecompileResult,
};
pub use precompile::{
    cost_fits, ensure_linear_cost, execute_linear, is_out_of_gas, linear_cost, linear_output,
    saturated_word_count, within_target, word_count, wraps_routine_result, LinearCostPrecompile,
    Precompile,
};
pub use utils::{
    ecdsa_recover_outcome, keccak256_of, keccak_256, lemma_digests_are_deterministic,
    lemma_ethereum_recovery_id, lemma_other_recovery_ids_refused, lemma_recovery_is_deterministic,
    normalized_recovery_id, secp256k1_ecdsa_recover, secp256k1_recovered, sha256_of, sha2_256,
    EcdsaVerifyError,
};
