//! Simulated execution: what a call or a creation hands to the transaction
//! descriptor and to the execution runner.
//!
//! The runner and the weight of a descriptor live outside this library. What
//! is decided here is which values reach them: the gas limit that the runner
//! gets is saturated to 64 bits, a nonce that was not supplied stays unset
//! for the runner and is zero in the descriptor, and an access list that was
//! not supplied is empty. The chain id of the descriptor is the runtime's
//! own and the caller adds it, as it adds the weight bound that it derives
//! from the descriptor.

use vstd::prelude::*;

verus! {

/// An unsigned number of 256 bits, in two halves.
#[derive(Clone, Copy, Debug, PartialEq, Eq, Structural)]
pub struct U256 {
    pub high: u128,
    pub low: u128,
}

impl U256 {
    /// The number that the two halves stand for.
    pub open spec fn value(self) -> nat {
        (self.high * 0x1_0000_0000_0000_0000_0000_0000_0000_0000 + self.low) as nat
    }

    /// Zero.
    pub fn zero() -> (r: U256)
        ensures
            r.value() == 0,
            r == (U256 { high: 0, low: 0 }),
    {
        U256 { high: 0, low: 0 }
    }

    /// The number `value`.
    pub fn from_u64(value: u64) -> (r: U256)
        ensures
            r.value() == value,
            r == (U256 { high: 0, low: value as u128 }),
    {
        U256 { high: 0, low: value as u128 }
    }

    /// The number, or the largest number of 64 bits where that is smaller.
    pub open spec fn saturated(self) -> nat {
        if self.value() <= u64::MAX {
            self.value()
        } else {
            u64::MAX as nat
        }
    }

    /// The number as 64 bits, saturated: a number that does not fit becomes
    /// the largest that does. It never wraps.
    pub fn saturated_u64(self) -> (r: u64)
        ensures
            r == self.saturated(),
    {
        if self.high == 0 && self.low <= u64::MAX as u128 {
            self.low as u64
        } else {
            u64::MAX
        }
    }

    /// The smaller of the number and the largest number of 64 bits.
    pub fn clamped_u64(self) -> (r: U256)
        ensures
            r.value() == self.saturated(),
            r.high == 0,
    {
        U256::from_u64(self.saturated_u64())
    }
}

/// What a transaction does: it calls a recipient or creates a contract.
#[derive(Debug, PartialEq, Eq)]
pub enum TransactionAction<A> {
    Call(A),
    Create,
}

/// A simulated call or creation, as handed to the transaction descriptor and
/// to the execution runner.
#[derive(Debug)]
pub struct Simulation<A, S> {
    /// The sender.
    pub source: A,
    /// The recipient of a call; none for a creation.
    pub action: TransactionAction<A>,
    /// The payload.
    pub input: Vec<u8>,
    pub value: U256,
    /// The maximum fee per gas; unset if none was supplied.
    pub max_fee_per_gas: Option<U256>,
    /// The priority fee per gas; unset if none was supplied.
    pub max_priority_fee_per_gas: Option<U256>,
    /// The access list; empty if none was supplied.
    pub access_list: Vec<S>,
    /// The nonce of the descriptor: the one supplied, else zero.
    pub descriptor_nonce: U256,
    /// The gas limit of the descriptor.
    pub descriptor_gas_limit: U256,
    /// The nonce that the runner gets; unset if none was supplied.
    pub runner_nonce: Option<U256>,
    /// The gas limit that the runner gets: the one supplied, saturated to
    /// 64 bits.
    pub runner_gas_limit: u64,
    /// Whether the runner is to run under the estimation variant of its
    /// configuration instead of the default one.
    pub estimate: bool,
    /// Whether the execution counts as a transaction. A simulation does not.
    pub is_transactional: bool,
    /// Whether the runner validates the execution. For a simulation it does.
    pub validate: bool,
}

/// The nonce of a descriptor: the one supplied, else zero.
pub open spec fn nonce_or_zero(nonce: Option<U256>) -> U256 {
    match nonce {
        Some(n) => n,
        None => U256 { high: 0, low: 0 },
    }
}

/// The access list that was supplied, else the empty one.
pub open spec fn list_or_empty<S>(access_list: Option<Vec<S>>) -> Seq<S> {
    match access_list {
        Some(list) => list@,
        None => Seq::empty(),
    }
}

/// The nonce that was supplied, else zero.
fn unwrap_nonce(nonce: Option<U256>) -> (r: U256)
    ensures
        r == nonce_or_zero(nonce),
{
    match nonce {
        Some(n) => n,
        None => U256 { high: 0, low: 0 },
    }
}

/// The access list that was supplied, else the empty one.
fn unwrap_list<S>(access_list: Option<Vec<S>>) -> (r: Vec<S>)
    ensures
        r@ == list_or_empty(access_list),
{
    match access_list {
        Some(list) => list,
        None => Vec::new(),
    }
}

/// Prepares the simulated call of `to` by `from`.
///
/// The gas limit is clamped to 64 bits before anything else: the descriptor
/// carries the clamped limit and the runner gets it as 64 bits.
pub fn call<A, S>(
    from: A,
    to: A,
    data: Vec<u8>,
    value: U256,
    gas_limit: U256,
    max_fee_per_gas: Option<U256>,
    max_priority_fee_per_gas: Option<U256>,
    nonce: Option<U256>,
    estimate: bool,
    access_list: Option<Vec<S>>,
) -> (r: Simulation<A, S>)
    ensures
        r.source == from,
        r.action == TransactionAction::Call(to),
        r.input@ == data@,
        r.value == value,
        r.max_fee_per_gas == max_fee_per_gas,
        r.max_priority_fee_per_gas == max_priority_fee_per_gas,
        r.access_list@ == list_or_empty(access_list),
        r.descriptor_nonce == nonce_or_zero(nonce),
        r.descriptor_gas_limit == (U256 { high: 0, low: gas_limit.saturated() as u128 }),
        r.runner_nonce == nonce,
        r.runner_gas_limit == gas_limit.saturated(),
        r.estimate == estimate,
        !r.is_transactional,
        r.validate,
{
    let gas_limit = gas_limit.clamped_u64();
    Simulation {
        source: from,
        action: TransactionAction::Call(to),
        input: data,
        value,
        max_fee_per_gas,
        max_priority_fee_per_gas,
        access_list: unwrap_list(access_list),
        descriptor_nonce: unwrap_nonce(nonce),
        descriptor_gas_limit: gas_limit,
        runner_nonce: nonce,
        runner_gas_limit: gas_limit.saturated_u64(),
        estimate,
        is_transactional: false,
        validate: true,
    }
}

/// Prepares the simulated creation of a contract by `from`.
///
/// The descriptor carries the gas limit as it was supplied; the runner gets
/// it saturated to 64 bits.
pub fn create<A, S>(
    from: A,
    data: Vec<u8>,
    value: U256,
    gas_limit: U256,
    max_fee_per_gas: Option<U256>,
    max_priority_fee_per_gas: Option<U256>,
    nonce: Option<U256>,
    estimate: bool,
    access_list: Option<Vec<S>>,
) -> (r: Simulation<A, S>)
    ensures
        r.source == from,
        r.action == TransactionAction::<A>::Create,
        r.input@ == data@,
        r.value == value,
        r.max_fee_per_gas == max_fee_per_gas,
        r.max_priority_fee_per_gas == max_priority_fee_per_gas,
        r.access_list@ == list_or_empty(access_list),
        r.descriptor_nonce == nonce_or_zero(nonce),
        r.descriptor_gas_limit == gas_limit,
        r.runner_nonce == nonce,
        r.runner_gas_limit == gas_limit.saturated(),
        r.estimate == estimate,
        !r.is_transactional,
        r.validate,
{
    Simulation {
        source: from,
        action: TransactionAction::Create,
        input: data,
        value,
        max_fee_per_gas,
        max_priority_fee_per_gas,
        access_list: unwrap_list(access_list),
        descriptor_nonce: unwrap_nonce(nonce),
        descriptor_gas_limit: gas_limit,
        runner_nonce: nonce,
        runner_gas_limit: gas_limit.saturated_u64(),
        estimate,
        is_transactional: false,
        validate: true,
    }
}

} // verus!
