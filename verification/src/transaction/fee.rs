//! What a transaction used and what it costs.
use crate::definitions::block_context::{BlockContext, OsResources, ResourceWeights};
use crate::definitions::transaction_type::TransactionType;
use crate::error::TransactionError;
use crate::execution::{ExecutionResources, ResourceUsage};
use crate::state::execution_resources_manager::{weighted_count, ExecutionResourcesManager};
use vstd::prelude::*;

verus! {

/// What every transaction of a kind adds to what its code uses.
pub open spec fn overhead_of(os: OsResources, tx_type: TransactionType) -> ExecutionResources {
    match tx_type {
        TransactionType::Declare => os.declare_overhead,
        TransactionType::DeployAccount => os.deploy_account_overhead,
        TransactionType::InvokeFunction => os.invoke_overhead,
        _ => ExecutionResources::zero(),
    }
}

/// The L1 gas of publishing what a transaction changed: two words for every
/// changed contract and two for every storage cell with a new value.
pub open spec fn data_gas(os: OsResources, n_modified_contracts: nat, n_storage_updates: nat) -> nat {
    os.gas_per_data_word as nat * (2 * n_modified_contracts + 2 * n_storage_updates)
}

/// What a transaction used: what the machine used in its calls, the steps
/// that its system calls stand for and the overhead of its kind, with the
/// L1 gas of the changes. `None` where a counter cannot hold its sum.
pub open spec fn tx_resources_of(
    cairo_usage: ExecutionResources,
    syscall_steps: nat,
    tx_type: TransactionType,
    n_modified_contracts: nat,
    n_storage_updates: nat,
    os: OsResources,
) -> Option<ResourceUsage> {
    let overhead = overhead_of(os, tx_type);
    let gas = data_gas(os, n_modified_contracts, n_storage_updates);
    if cairo_usage.fits_with(overhead) && cairo_usage.spec_plus(
        overhead,
    ).n_steps + syscall_steps <= usize::MAX && gas <= usize::MAX {
        Some(
            ResourceUsage {
                l1_gas_usage: gas as usize,
                cairo_usage: ExecutionResources {
                    n_steps: (cairo_usage.spec_plus(overhead).n_steps + syscall_steps) as usize,
                    ..cairo_usage.spec_plus(overhead)
                },
            },
        )
    } else {
        None
    }
}

/// Adds up what a transaction used.
pub fn calculate_tx_resources(
    resources_manager: &ExecutionResourcesManager,
    tx_type: TransactionType,
    storage_changes: (usize, usize),
    os: &OsResources,
) -> (r: Result<ResourceUsage, TransactionError>)
    ensures
        r == (match tx_resources_of(
            resources_manager.cairo_usage,
            weighted_count(
                resources_manager.syscall_counter@,
                resources_manager.syscall_counter.keys(),
                os.syscall_steps,
            ),
            tx_type,
            storage_changes.0 as nat,
            storage_changes.1 as nat,
            *os,
        ) {
            Some(u) => Ok::<ResourceUsage, TransactionError>(u),
            None => Err::<ResourceUsage, TransactionError>(TransactionError::ResourcesCalculation),
        }),
{
    let steps = match resources_manager.weighted_syscalls(&os.syscall_steps) {
        Some(n) => n,
        None => {
            return Err(TransactionError::ResourcesCalculation);
        },
    };
    let overhead = match tx_type {
        TransactionType::Declare => os.declare_overhead,
        TransactionType::DeployAccount => os.deploy_account_overhead,
        TransactionType::InvokeFunction => os.invoke_overhead,
        _ => ExecutionResources::new(),
    };
    let with_overhead = match resources_manager.cairo_usage.checked_plus(&overhead) {
        Some(u) => u,
        None => {
            return Err(TransactionError::ResourcesCalculation);
        },
    };
    let n_steps = match steps.checked_add(with_overhead.n_steps) {
        Some(s) => s,
        None => {
            return Err(TransactionError::ResourcesCalculation);
        },
    };
    let words = 2 * (storage_changes.0 as u128) + 2 * (storage_changes.1 as u128);
    let gas = match (os.gas_per_data_word as u128).checked_mul(words) {
        Some(g) if g <= usize::MAX as u128 => g as usize,
        _ => {
            return Err(TransactionError::ResourcesCalculation);
        },
    };
    Ok(
        ResourceUsage {
            l1_gas_usage: gas,
            cairo_usage: ExecutionResources { n_steps, ..with_overhead },
        },
    )
}

/// What the resources of a transaction weigh.
pub open spec fn weighted_usage(weights: ResourceWeights, usage: ResourceUsage) -> nat {
    (weights.l1_gas_usage as nat * usage.l1_gas_usage as nat + weights.n_steps as nat
        * usage.cairo_usage.n_steps as nat + weights.pedersen_builtin as nat
        * usage.cairo_usage.pedersen_builtin as nat + weights.range_check_builtin as nat
        * usage.cairo_usage.range_check_builtin as nat + weights.ecdsa_builtin as nat
        * usage.cairo_usage.ecdsa_builtin as nat + weights.bitwise_builtin as nat
        * usage.cairo_usage.bitwise_builtin as nat + weights.ec_op_builtin as nat
        * usage.cairo_usage.ec_op_builtin as nat + weights.poseidon_builtin as nat
        * usage.cairo_usage.poseidon_builtin as nat + weights.keccak_builtin as nat
        * usage.cairo_usage.keccak_builtin as nat + weights.segment_arena_builtin as nat
        * usage.cairo_usage.segment_arena_builtin as nat + weights.output_builtin as nat
        * usage.cairo_usage.output_builtin as nat) as nat
}

/// The fee of a transaction: what its resources weigh, times the price of gas.
pub open spec fn fee_of(weights: ResourceWeights, usage: ResourceUsage, gas_price: nat) -> nat {
    weighted_usage(weights, usage) * gas_price
}

/// Adds the weight of one resource to a sum, as long as the sum can be held.
fn add_weighted(acc: Option<u128>, weight: u128, usage: usize) -> (r: Option<u128>)
    ensures
        r == (match acc {
            Some(a) => if a + weight as nat * usage as nat <= u128::MAX {
                Some((a + weight as nat * usage as nat) as u128)
            } else {
                None
            },
            None => None,
        }),
{
    match acc {
        Some(a) => match weight.checked_mul(usage as u128) {
            Some(term) => a.checked_add(term),
            None => None,
        },
        None => None,
    }
}

/// Computes the fee of a transaction from what it used.
pub fn calculate_tx_fee(resources: &ResourceUsage, gas_price: u128, block_context: &BlockContext) -> (r:
    Result<u128, TransactionError>)
    ensures
        r == (if fee_of(block_context.cairo_resource_fee_weights, *resources, gas_price as nat)
            <= u128::MAX {
            Ok::<u128, TransactionError>(
                fee_of(
                    block_context.cairo_resource_fee_weights,
                    *resources,
                    gas_price as nat,
                ) as u128,
            )
        } else {
            Err::<u128, TransactionError>(TransactionError::ResourcesCalculation)
        }),
{
    let w = block_context.cairo_resource_fee_weights;
    let u = resources.cairo_usage;
    if gas_price == 0 {
        assert(fee_of(w, *resources, 0) == 0) by (nonlinear_arith)
            requires
                fee_of(w, *resources, 0) == weighted_usage(w, *resources) * 0,
        ;
        return Ok(0);
    }
    let s0 = add_weighted(Some(0), w.l1_gas_usage, resources.l1_gas_usage);
    let s1 = add_weighted(s0, w.n_steps, u.n_steps);
    let s2 = add_weighted(s1, w.pedersen_builtin, u.pedersen_builtin);
    let s3 = add_weighted(s2, w.range_check_builtin, u.range_check_builtin);
    let s4 = add_weighted(s3, w.ecdsa_builtin, u.ecdsa_builtin);
    let s5 = add_weighted(s4, w.bitwise_builtin, u.bitwise_builtin);
    let s6 = add_weighted(s5, w.ec_op_builtin, u.ec_op_builtin);
    let s7 = add_weighted(s6, w.poseidon_builtin, u.poseidon_builtin);
    let s8 = add_weighted(s7, w.keccak_builtin, u.keccak_builtin);
    let s9 = add_weighted(s8, w.segment_arena_builtin, u.segment_arena_builtin);
    let s10 = add_weighted(s9, w.output_builtin, u.output_builtin);
    let ghost total = weighted_usage(w, *resources);
    proof {
        assert(w.l1_gas_usage as nat * resources.l1_gas_usage as nat >= 0) by (nonlinear_arith);
        assert(w.n_steps as nat * u.n_steps as nat >= 0) by (nonlinear_arith);
        assert(w.pedersen_builtin as nat * u.pedersen_builtin as nat >= 0) by (nonlinear_arith);
        assert(w.range_check_builtin as nat * u.range_check_builtin as nat >= 0)
            by (nonlinear_arith);
        assert(w.ecdsa_builtin as nat * u.ecdsa_builtin as nat >= 0) by (nonlinear_arith);
        assert(w.bitwise_builtin as nat * u.bitwise_builtin as nat >= 0) by (nonlinear_arith);
        assert(w.ec_op_builtin as nat * u.ec_op_builtin as nat >= 0) by (nonlinear_arith);
        assert(w.poseidon_builtin as nat * u.poseidon_builtin as nat >= 0) by (nonlinear_arith);
        assert(w.keccak_builtin as nat * u.keccak_builtin as nat >= 0) by (nonlinear_arith);
        assert(w.segment_arena_builtin as nat * u.segment_arena_builtin as nat >= 0)
            by (nonlinear_arith);
        assert(w.output_builtin as nat * u.output_builtin as nat >= 0) by (nonlinear_arith);
        assert(s10 == (if total <= u128::MAX {
            Some(total as u128)
        } else {
            None::<u128>
        }));
    }
    match s10 {
        Some(sum) => match sum.checked_mul(gas_price) {
            Some(fee) => Ok(fee),
            None => Err(TransactionError::ResourcesCalculation),
        },
        None => {
            proof {
                assert(total * gas_price as nat >= total) by (nonlinear_arith)
                    requires
                        gas_price >= 1,
                ;
            }
            Err(TransactionError::ResourcesCalculation)
        },
    }
}

} // verus!
