//! The EVM domain: its fields, and the fragment that implements the Ethereum
//! runtime RPC API and the transaction conversion API.

use crate::context::Context;
use crate::declaration::DeclarationItem;
use crate::extract::{
    extract_indexed, extraction, failure_message, ExtractionFailure, Shortfall,
};
use crate::schema::{evm_fields, FieldSchema, ETHEREUM, EXECUTIVE, RUNTIME_CALL};
use crate::template::{bindings_view, instantiate, instantiation};
use vstd::prelude::*;

verus! {

/// The messages for an EVM field that no declaration binds.
pub const MISSING_RUNTIME_CALL: &'static str = "`type RuntimeCall` not specified, but required";

pub const MISSING_EXECUTIVE: &'static str = "`type Executive` not specified, but required";

pub const MISSING_ETHEREUM: &'static str = "`type Ethereum` not specified, but required";

/// The messages for an EVM field that a declaration binds to an expression
/// that is no single identifier.
pub const UNRESOLVABLE_RUNTIME_CALL: &'static str =
    "`type RuntimeCall` does not resolve to a single identifier";

pub const UNRESOLVABLE_EXECUTIVE: &'static str =
    "`type Executive` does not resolve to a single identifier";

pub const UNRESOLVABLE_ETHEREUM: &'static str =
    "`type Ethereum` does not resolve to a single identifier";

/// The identifiers that the EVM fragment is built from.
#[derive(Debug)]
pub struct EVMAPIFields {
    pub call: String,
    pub executive: String,
    pub ethereum: String,
}

impl View for EVMAPIFields {
    type V = Seq<(Seq<char>, Seq<char>)>;

    /// Each field of the EVM schema with the identifier bound to it.
    open spec fn view(&self) -> Seq<(Seq<char>, Seq<char>)> {
        seq![
            (RUNTIME_CALL@, self.call@),
            (EXECUTIVE@, self.executive@),
            (ETHEREUM@, self.ethereum@),
        ]
    }
}

/// Each diagnostic of the EVM domain is the message of the failure that it
/// stands for.
proof fn lemma_evm_diagnostics()
    ensures
        MISSING_RUNTIME_CALL@ == failure_message(ExtractionFailure::MissingField(RUNTIME_CALL@)),
        MISSING_EXECUTIVE@ == failure_message(ExtractionFailure::MissingField(EXECUTIVE@)),
        MISSING_ETHEREUM@ == failure_message(ExtractionFailure::MissingField(ETHEREUM@)),
        UNRESOLVABLE_RUNTIME_CALL@ == failure_message(
            ExtractionFailure::UnresolvableTypeExpression(RUNTIME_CALL@),
        ),
        UNRESOLVABLE_EXECUTIVE@ == failure_message(
            ExtractionFailure::UnresolvableTypeExpression(EXECUTIVE@),
        ),
        UNRESOLVABLE_ETHEREUM@ == failure_message(
            ExtractionFailure::UnresolvableTypeExpression(ETHEREUM@),
        ),
{
    reveal_strlit("`type ");
    reveal_strlit("` not specified, but required");
    reveal_strlit("` does not resolve to a single identifier");
    reveal_strlit("RuntimeCall");
    reveal_strlit("Executive");
    reveal_strlit("Ethereum");
    reveal_strlit("`type RuntimeCall` not specified, but required");
    reveal_strlit("`type Executive` not specified, but required");
    reveal_strlit("`type Ethereum` not specified, but required");
    reveal_strlit("`type RuntimeCall` does not resolve to a single identifier");
    reveal_strlit("`type Executive` does not resolve to a single identifier");
    reveal_strlit("`type Ethereum` does not resolve to a single identifier");
    let head = "`type "@;
    let missing = "` not specified, but required"@;
    let unresolvable = "` does not resolve to a single identifier"@;
    assert(MISSING_RUNTIME_CALL@ =~= head + RUNTIME_CALL@ + missing);
    assert(MISSING_EXECUTIVE@ =~= head + EXECUTIVE@ + missing);
    assert(MISSING_ETHEREUM@ =~= head + ETHEREUM@ + missing);
    assert(UNRESOLVABLE_RUNTIME_CALL@ =~= head + RUNTIME_CALL@ + unresolvable);
    assert(UNRESOLVABLE_EXECUTIVE@ =~= head + EXECUTIVE@ + unresolvable);
    assert(UNRESOLVABLE_ETHEREUM@ =~= head + ETHEREUM@ + unresolvable);
}

impl EVMAPIFields {
    /// Extracts the EVM fields from `value`.
    ///
    /// Succeeds exactly when extraction over the EVM schema does, with the
    /// identifiers it binds; fails otherwise, with the message of the
    /// failure, which names the field concerned.
    pub fn try_from(value: &[DeclarationItem]) -> (r: Result<EVMAPIFields, &'static str>)
        ensures
            match r {
                Ok(fields) => extraction(value@, evm_fields()) == Ok::<_, ExtractionFailure>(
                    fields@,
                ),
                Err(message) => extraction(value@, evm_fields()) matches Err(failure) && message@
                    == failure_message(failure),
            },
    {
        let schema = FieldSchema::evm();
        proof {
            lemma_evm_diagnostics();
        }
        match extract_indexed(value, &schema) {
            Ok(record) => {
                let fields = EVMAPIFields {
                    call: record.value(0).clone(),
                    executive: record.value(1).clone(),
                    ethereum: record.value(2).clone(),
                };
                assert(fields@ =~= record@);
                Ok(fields)
            },
            Err(Shortfall::Missing(k)) => Err(
                if k == 0 {
                    MISSING_RUNTIME_CALL
                } else if k == 1 {
                    MISSING_EXECUTIVE
                } else {
                    MISSING_ETHEREUM
                },
            ),
            Err(Shortfall::Unresolvable(k)) => Err(
                if k == 0 {
                    UNRESOLVABLE_RUNTIME_CALL
                } else if k == 1 {
                    UNRESOLVABLE_EXECUTIVE
                } else {
                    UNRESOLVABLE_ETHEREUM
                },
            ),
        }
    }
}

/// The skeleton of the EVM fragment. It implements the Ethereum runtime RPC
/// API (state reads, simulated calls and creations, the extrinsic filter and
/// the pending block) and the transaction conversion API.
pub const EVM_TEMPLATE: &'static str = "use pallet_ethereum::{
    Call::transact, Transaction as EthereumTransaction, TransactionAction, TransactionData,
    TransactionStatus,
};
use pallet_evm::{Account as EVMAccount, FeeCalculator, Runner};
use sp_core::{H160, H256, U256};

impl fp_rpc::EthereumRuntimeRPCApi<#block> for #runtime {
    /// Returns runtime defined pallet_evm::ChainId.
    fn chain_id() -> u64 {
        <#runtime as pallet_evm::Config>::ChainId::get()
    }

    /// Returns pallet_evm::Accounts by address.
    fn account_basic(address: H160) -> EVMAccount {
        let (account, _) = pallet_evm::Pallet::<#runtime>::account_basic(&address);
        account
    }

    /// Returns FixedGasPrice::min_gas_price
    fn gas_price() -> U256 {
        let (gas_price, _) = <#runtime as pallet_evm::Config>::FeeCalculator::min_gas_price();
        gas_price
    }

    /// For a given account address, returns pallet_evm::AccountCodes.
    fn account_code_at(address: H160) -> Vec<u8> {
        pallet_evm::AccountCodes::<#runtime>::get(address)
    }

    /// Returns the converted FindAuthor::find_author authority id.
    fn author() -> H160 {
        <pallet_evm::Pallet<#runtime>>::find_author()
    }

    /// For a given account address and index, returns pallet_evm::AccountStorages.
    fn storage_at(address: H160, index: U256) -> H256 {
        let mut tmp = [0u8; 32];
        index.to_big_endian(&mut tmp);
        pallet_evm::AccountStorages::<#runtime>::get(address, H256::from_slice(&tmp[..]))
    }

    /// Returns a frame_ethereum::call response.
    fn call(
        from: H160,
        to: H160,
        data: Vec<u8>,
        value: U256,
        gas_limit: U256,
        max_fee_per_gas: Option<U256>,
        max_priority_fee_per_gas: Option<U256>,
        nonce: Option<U256>,
        estimate: bool,
        access_list: Option<Vec<(H160, Vec<H256>)>>,
    ) -> Result<pallet_evm::CallInfo, sp_runtime::DispatchError> {
        let config = if estimate {
            let mut config = <#runtime as pallet_evm::Config>::config().clone();
            config.estimate = true;
            Some(config)
        } else {
            None
        };

        let gas_limit = gas_limit.min(u64::MAX.into());
        let transaction_data = TransactionData::new(
            TransactionAction::Call(to),
            data.clone(),
            nonce.unwrap_or_default(),
            gas_limit,
            None,
            max_fee_per_gas,
            max_priority_fee_per_gas,
            value,
            Some(<#runtime as pallet_evm::Config>::ChainId::get()),
            access_list.clone().unwrap_or_default(),
        );
        let (weight_limit, proof_size_base_cost) = pallet_ethereum::Pallet::<#runtime>::transaction_weight(&transaction_data);

        <#runtime as pallet_evm::Config>::Runner::call(
            from,
            to,
            data,
            value,
            gas_limit.unique_saturated_into(),
            max_fee_per_gas,
            max_priority_fee_per_gas,
            nonce,
            access_list.unwrap_or_default(),
            false,
            true,
            weight_limit,
            proof_size_base_cost,
            config.as_ref().unwrap_or(<#runtime as pallet_evm::Config>::config()),
        ).map_err(|err| err.error.into())
    }

    /// Returns a frame_ethereum::create response.
    fn create(
        from: H160,
        data: Vec<u8>,
        value: U256,
        gas_limit: U256,
        max_fee_per_gas: Option<U256>,
        max_priority_fee_per_gas: Option<U256>,
        nonce: Option<U256>,
        estimate: bool,
        access_list: Option<Vec<(H160, Vec<H256>)>>,
    ) -> Result<pallet_evm::CreateInfo, sp_runtime::DispatchError> {
        let config = if estimate {
            let mut config = <#runtime as pallet_evm::Config>::config().clone();
            config.estimate = true;
            Some(config)
        } else {
            None
        };

        let transaction_data = TransactionData::new(
            TransactionAction::Create,
            data.clone(),
            nonce.unwrap_or_default(),
            gas_limit,
            None,
            max_fee_per_gas,
            max_priority_fee_per_gas,
            value,
            Some(<#runtime as pallet_evm::Config>::ChainId::get()),
            access_list.clone().unwrap_or_default(),
        );
        let (weight_limit, proof_size_base_cost) = pallet_ethereum::Pallet::<#runtime>::transaction_weight(&transaction_data);

        <#runtime as pallet_evm::Config>::Runner::create(
            from,
            data,
            value,
            gas_limit.unique_saturated_into(),
            max_fee_per_gas,
            max_priority_fee_per_gas,
            nonce,
            access_list.unwrap_or_default(),
            false,
            true,
            weight_limit,
            proof_size_base_cost,
            config.as_ref().unwrap_or(<#runtime as pallet_evm::Config>::config()),
        ).map_err(|err| err.error.into())
    }

    /// Return the current transaction status.
    fn current_transaction_statuses() -> Option<Vec<TransactionStatus>> {
        pallet_ethereum::CurrentTransactionStatuses::<#runtime>::get()
    }

    /// Return the current block.
    fn current_block() -> Option<pallet_ethereum::Block> {
        pallet_ethereum::CurrentBlock::<#runtime>::get()
    }

    /// Return the current receipts.
    fn current_receipts() -> Option<Vec<pallet_ethereum::Receipt>> {
        pallet_ethereum::CurrentReceipts::<#runtime>::get()
    }

    /// Return all the current data for a block in a single runtime call.
    fn current_all() -> (
        Option<pallet_ethereum::Block>,
        Option<Vec<pallet_ethereum::Receipt>>,
        Option<Vec<TransactionStatus>>
    ) {
        (
            pallet_ethereum::CurrentBlock::<#runtime>::get(),
            pallet_ethereum::CurrentReceipts::<#runtime>::get(),
            pallet_ethereum::CurrentTransactionStatuses::<#runtime>::get()
        )
    }

    /// Receives a `Vec<OpaqueExtrinsic>` and filters out all the non-ethereum transactions.
    fn extrinsic_filter(
        xts: Vec<<#block as BlockT>::Extrinsic>,
    ) -> Vec<EthereumTransaction> {
        xts.into_iter().filter_map(|xt| match xt.0.function {
            #runtime_call::Ethereum(transact { transaction }) => Some(transaction),
            _ => None
        }).collect::<Vec<EthereumTransaction>>()
    }

    /// Return the elasticity multiplier.
    fn elasticity() -> Option<Permill> {
        Some(pallet_base_fee::Elasticity::<#runtime>::get())
    }

    /// Used to determine if gas limit multiplier for non-transactional calls (eth_call/estimateGas)
    /// is supported.
    fn gas_limit_multiplier_support() {}

    /// Return the pending block.
    fn pending_block(
        xts: Vec<<#block as BlockT>::Extrinsic>,
    ) -> (Option<pallet_ethereum::Block>, Option<Vec<TransactionStatus>>) {
        for ext in xts.into_iter() {
            let _ = #executive::apply_extrinsic(ext);
        }

        #ethereum::on_finalize(System::block_number() + 1);

        (
            pallet_ethereum::CurrentBlock::<#runtime>::get(),
            pallet_ethereum::CurrentTransactionStatuses::<#runtime>::get()
        )
    }

    fn initialize_pending_block(header: &<#block as BlockT>::Header) {
        #executive::initialize_block(header);
    }
}

impl fp_rpc::ConvertTransactionRuntimeApi<#block> for #runtime {
    /// Converts an ethereum transaction into a transaction suitable for the runtime.
    fn convert_transaction(transaction: EthereumTransaction) -> <#block as BlockT>::Extrinsic {
        UncheckedExtrinsic::new_unsigned(
            pallet_ethereum::Call::<#runtime>::transact { transaction }.into(),
        )
    }
}
";

/// The bindings under which the EVM skeleton is instantiated.
pub open spec fn evm_bindings(
    runtime: Seq<char>,
    block: Seq<char>,
    runtime_call: Seq<char>,
    executive: Seq<char>,
    ethereum: Seq<char>,
) -> Seq<(Seq<char>, Seq<char>)> {
    seq![
        ("runtime"@, runtime),
        ("block"@, block),
        ("runtime_call"@, runtime_call),
        ("executive"@, executive),
        ("ethereum"@, ethereum),
    ]
}

/// The EVM fragment for the given identifiers: the EVM skeleton with each
/// placeholder replaced by the identifier of its name.
pub open spec fn evm_fragment(
    runtime: Seq<char>,
    block: Seq<char>,
    runtime_call: Seq<char>,
    executive: Seq<char>,
    ethereum: Seq<char>,
) -> Seq<char> {
    instantiation(EVM_TEMPLATE@, evm_bindings(runtime, block, runtime_call, executive, ethereum))
}

/// Emits the EVM fragment for the runtime `runtime` and the block type
/// `block`, over the dispatch call type and the pallets that the remaining
/// identifiers name.
pub fn evm_apis(
    runtime: &str,
    block: &str,
    runtime_call: &str,
    executive: &str,
    ethereum: &str,
) -> (r: String)
    ensures
        r@ == evm_fragment(runtime@, block@, runtime_call@, executive@, ethereum@),
{
    let bindings = [
        ("runtime", runtime),
        ("block", block),
        ("runtime_call", runtime_call),
        ("executive", executive),
        ("ethereum", ethereum),
    ];
    assert(bindings_view(bindings@) =~= evm_bindings(
        runtime@,
        block@,
        runtime_call@,
        executive@,
        ethereum@,
    ));
    instantiate(EVM_TEMPLATE, bindings.as_slice())
}

impl EVMAPIFields {
    /// The EVM fragment for these fields in `context`.
    pub open spec fn fragment(self, context: Context) -> Seq<char> {
        evm_fragment(
            context.runtime@,
            context.block@,
            self.call@,
            self.executive@,
            self.ethereum@,
        )
    }

    /// Emits the EVM fragment for these fields in `context`.
    pub fn synthesize(&self, context: &Context) -> (r: String)
        ensures
            r@ == self.fragment(*context),
    {
        evm_apis(
            context.runtime.as_str(),
            context.block.as_str(),
            self.call.as_str(),
            self.executive.as_str(),
            self.ethereum.as_str(),
        )
    }
}

/// Synthesis is determined by the text of its inputs: fields that bind the
/// same identifiers, in contexts of the same names, give the same fragment,
/// character for character.
pub proof fn lemma_evm_synthesis_deterministic(
    fields: EVMAPIFields,
    context: Context,
    other_fields: EVMAPIFields,
    other_context: Context,
)
    requires
        fields@ == other_fields@,
        context@ == other_context@,
    ensures
        fields.fragment(context) == other_fields.fragment(other_context),
{
    assert(fields@[0] == other_fields@[0]);
    assert(fields@[1] == other_fields@[1]);
    assert(fields@[2] == other_fields@[2]);
}

} // verus!
