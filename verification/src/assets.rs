//! The asset domain: its fields, and the fragment that implements the
//! transaction payment and oracle runtime APIs.

use crate::context::Context;
use crate::declaration::DeclarationItem;
use crate::extract::{
    extract_indexed, extraction, failure_message, ExtractionFailure, Shortfall,
};
use crate::schema::{
    asset_fields, FieldSchema, BALANCE, ORACLE, ORACLE_KEY, RUNTIME_CALL, TRANSACTION_PAYMENT,
};
use crate::template::{bindings_view, instantiate, instantiation};
use vstd::prelude::*;

verus! {

/// The messages for an asset field that no declaration binds.
pub const MISSING_TRANSACTION_PAYMENT: &'static str =
    "`type TransactionPayment` not specified, but required";

pub const MISSING_BALANCE: &'static str = "`type Balance` not specified, but required";

pub const MISSING_RUNTIME_CALL: &'static str = "`type RuntimeCall` not specified, but required";

pub const MISSING_ORACLE_KEY: &'static str = "`type OracleKey` not specified, but required";

pub const MISSING_ORACLE: &'static str = "`type Oracle` not specified, but required";

/// The messages for an asset field that a declaration binds to an
/// expression that is no single identifier.
pub const UNRESOLVABLE_TRANSACTION_PAYMENT: &'static str =
    "`type TransactionPayment` does not resolve to a single identifier";

pub const UNRESOLVABLE_BALANCE: &'static str =
    "`type Balance` does not resolve to a single identifier";

pub const UNRESOLVABLE_RUNTIME_CALL: &'static str =
    "`type RuntimeCall` does not resolve to a single identifier";

pub const UNRESOLVABLE_ORACLE_KEY: &'static str =
    "`type OracleKey` does not resolve to a single identifier";

pub const UNRESOLVABLE_ORACLE: &'static str =
    "`type Oracle` does not resolve to a single identifier";

/// The identifiers that the asset fragment is built from.
#[derive(Debug)]
pub struct AssetAPIFields {
    pub transaction_payment: String,
    pub balance: String,
    pub call: String,
    pub oracle_key: String,
    pub oracle: String,
}

impl View for AssetAPIFields {
    type V = Seq<(Seq<char>, Seq<char>)>;

    /// Each field of the asset schema with the identifier bound to it.
    open spec fn view(&self) -> Seq<(Seq<char>, Seq<char>)> {
        seq![
            (TRANSACTION_PAYMENT@, self.transaction_payment@),
            (BALANCE@, self.balance@),
            (RUNTIME_CALL@, self.call@),
            (ORACLE_KEY@, self.oracle_key@),
            (ORACLE@, self.oracle@),
        ]
    }
}

/// Each diagnostic of the asset domain is the message of the failure that it
/// stands for.
proof fn lemma_asset_diagnostics()
    ensures
        MISSING_TRANSACTION_PAYMENT@ == failure_message(
            ExtractionFailure::MissingField(TRANSACTION_PAYMENT@),
        ),
        MISSING_BALANCE@ == failure_message(ExtractionFailure::MissingField(BALANCE@)),
        MISSING_RUNTIME_CALL@ == failure_message(ExtractionFailure::MissingField(RUNTIME_CALL@)),
        MISSING_ORACLE_KEY@ == failure_message(ExtractionFailure::MissingField(ORACLE_KEY@)),
        MISSING_ORACLE@ == failure_message(ExtractionFailure::MissingField(ORACLE@)),
        UNRESOLVABLE_TRANSACTION_PAYMENT@ == failure_message(
            ExtractionFailure::UnresolvableTypeExpression(TRANSACTION_PAYMENT@),
        ),
        UNRESOLVABLE_BALANCE@ == failure_message(
            ExtractionFailure::UnresolvableTypeExpression(BALANCE@),
        ),
        UNRESOLVABLE_RUNTIME_CALL@ == failure_message(
            ExtractionFailure::UnresolvableTypeExpression(RUNTIME_CALL@),
        ),
        UNRESOLVABLE_ORACLE_KEY@ == failure_message(
            ExtractionFailure::UnresolvableTypeExpression(ORACLE_KEY@),
        ),
        UNRESOLVABLE_ORACLE@ == failure_message(
            ExtractionFailure::UnresolvableTypeExpression(ORACLE@),
        ),
{
    reveal_strlit("`type ");
    reveal_strlit("` not specified, but required");
    reveal_strlit("` does not resolve to a single identifier");
    reveal_strlit("TransactionPayment");
    reveal_strlit("Balance");
    reveal_strlit("RuntimeCall");
    reveal_strlit("OracleKey");
    reveal_strlit("Oracle");
    reveal_strlit("`type TransactionPayment` not specified, but required");
    reveal_strlit("`type Balance` not specified, but required");
    reveal_strlit("`type RuntimeCall` not specified, but required");
    reveal_strlit("`type OracleKey` not specified, but required");
    reveal_strlit("`type Oracle` not specified, but required");
    reveal_strlit("`type TransactionPayment` does not resolve to a single identifier");
    reveal_strlit("`type Balance` does not resolve to a single identifier");
    reveal_strlit("`type RuntimeCall` does not resolve to a single identifier");
    reveal_strlit("`type OracleKey` does not resolve to a single identifier");
    reveal_strlit("`type Oracle` does not resolve to a single identifier");
    let head = "`type "@;
    let missing = "` not specified, but required"@;
    let unresolvable = "` does not resolve to a single identifier"@;
    assert(MISSING_TRANSACTION_PAYMENT@ =~= head + TRANSACTION_PAYMENT@ + missing);
    assert(MISSING_BALANCE@ =~= head + BALANCE@ + missing);
    assert(MISSING_RUNTIME_CALL@ =~= head + RUNTIME_CALL@ + missing);
    assert(MISSING_ORACLE_KEY@ =~= head + ORACLE_KEY@ + missing);
    assert(MISSING_ORACLE@ =~= head + ORACLE@ + missing);
    assert(UNRESOLVABLE_TRANSACTION_PAYMENT@ =~= head + TRANSACTION_PAYMENT@ + unresolvable);
    assert(UNRESOLVABLE_BALANCE@ =~= head + BALANCE@ + unresolvable);
    assert(UNRESOLVABLE_RUNTIME_CALL@ =~= head + RUNTIME_CALL@ + unresolvable);
    assert(UNRESOLVABLE_ORACLE_KEY@ =~= head + ORACLE_KEY@ + unresolvable);
    assert(UNRESOLVABLE_ORACLE@ =~= head + ORACLE@ + unresolvable);
}

impl AssetAPIFields {
    /// Extracts the asset fields from `value`.
    ///
    /// Succeeds exactly when extraction over the asset schema does, with the
    /// identifiers it binds; fails otherwise, with the message of the
    /// failure, which names the field concerned.
    pub fn try_from(value: &[DeclarationItem]) -> (r: Result<AssetAPIFields, &'static str>)
        ensures
            match r {
                Ok(fields) => extraction(value@, asset_fields()) == Ok::<_, ExtractionFailure>(
                    fields@,
                ),
                Err(message) => extraction(value@, asset_fields()) matches Err(failure)
                    && message@ == failure_message(failure),
            },
    {
        let schema = FieldSchema::asset();
        proof {
            lemma_asset_diagnostics();
        }
        match extract_indexed(value, &schema) {
            Ok(record) => {
                let fields = AssetAPIFields {
                    transaction_payment: record.value(0).clone(),
                    balance: record.value(1).clone(),
                    call: record.value(2).clone(),
                    oracle_key: record.value(3).clone(),
                    oracle: record.value(4).clone(),
                };
                assert(fields@ =~= record@);
                Ok(fields)
            },
            Err(Shortfall::Missing(k)) => Err(
                if k == 0 {
                    MISSING_TRANSACTION_PAYMENT
                } else if k == 1 {
                    MISSING_BALANCE
                } else if k == 2 {
                    MISSING_RUNTIME_CALL
                } else if k == 3 {
                    MISSING_ORACLE_KEY
                } else {
                    MISSING_ORACLE
                },
            ),
            Err(Shortfall::Unresolvable(k)) => Err(
                if k == 0 {
                    UNRESOLVABLE_TRANSACTION_PAYMENT
                } else if k == 1 {
                    UNRESOLVABLE_BALANCE
                } else if k == 2 {
                    UNRESOLVABLE_RUNTIME_CALL
                } else if k == 3 {
                    UNRESOLVABLE_ORACLE_KEY
                } else {
                    UNRESOLVABLE_ORACLE
                },
            ),
        }
    }
}

/// The skeleton of the asset fragment. It implements the transaction payment
/// API, the transaction payment call API and the oracle API, each method by
/// delegation to the pallet bound to the matching field.
pub const ASSET_TEMPLATE: &'static str = "impl pallet_transaction_payment_rpc_runtime_api::TransactionPaymentApi<#block, #balance>
    for #runtime
{
    fn query_info(
        uxt: <#block as sp_runtime::traits::Block>::Extrinsic,
        len: u32,
    ) -> pallet_transaction_payment_rpc_runtime_api::RuntimeDispatchInfo<#balance> {
        #transaction_payment::query_info(uxt, len)
    }
    fn query_fee_details(
        uxt: <#block as sp_runtime::traits::Block>::Extrinsic,
        len: u32,
    ) -> pallet_transaction_payment::FeeDetails<#balance> {
        #transaction_payment::query_fee_details(uxt, len)
    }
    fn query_weight_to_fee(weight: frame_support::weights::Weight) -> #balance {
        #transaction_payment::weight_to_fee(weight)
    }
    fn query_length_to_fee(length: u32) -> #balance {
        #transaction_payment::length_to_fee(length)
    }
}

impl
    pallet_transaction_payment_rpc_runtime_api::TransactionPaymentCallApi<
        #block,
        #balance,
        #call,
    > for #runtime
{
    fn query_call_info(
        call: #call,
        len: u32,
    ) -> pallet_transaction_payment::RuntimeDispatchInfo<#balance> {
        #transaction_payment::query_call_info(call, len)
    }
    fn query_call_fee_details(
        call: #call,
        len: u32,
    ) -> pallet_transaction_payment::FeeDetails<#balance> {
        #transaction_payment::query_call_fee_details(call, len)
    }
    fn query_weight_to_fee(weight: frame_support::weights::Weight) -> #balance {
        #transaction_payment::weight_to_fee(weight)
    }
    fn query_length_to_fee(length: u32) -> #balance {
        #transaction_payment::length_to_fee(length)
    }
}

impl orml_oracle_runtime_api::OracleApi<
    #block,
    (),
    #oracle_key,
    orml_oracle::TimestampedValue<sp_runtime::FixedU128, u64>,
> for #runtime {
    fn get_value(_: (), key: #oracle_key) -> Option<orml_oracle::TimestampedValue<sp_runtime::FixedU128, u64>> {
        #oracle::get(&key)
    }

    fn get_all_values(_: ()) -> sp_std::prelude::Vec<(#oracle_key, Option<orml_oracle::TimestampedValue<sp_runtime::FixedU128, u64>>)> {
        #oracle::get_all_values()
    }
}
";

/// The bindings under which the asset skeleton is instantiated.
pub open spec fn asset_bindings(
    runtime: Seq<char>,
    block: Seq<char>,
    transaction_payment: Seq<char>,
    balance: Seq<char>,
    call: Seq<char>,
    oracle_key: Seq<char>,
    oracle: Seq<char>,
) -> Seq<(Seq<char>, Seq<char>)> {
    seq![
        ("runtime"@, runtime),
        ("block"@, block),
        ("transaction_payment"@, transaction_payment),
        ("balance"@, balance),
        ("call"@, call),
        ("oracle_key"@, oracle_key),
        ("oracle"@, oracle),
    ]
}

/// The asset fragment for the given identifiers: the asset skeleton with each
/// placeholder replaced by the identifier of its name.
pub open spec fn asset_fragment(
    runtime: Seq<char>,
    block: Seq<char>,
    transaction_payment: Seq<char>,
    balance: Seq<char>,
    call: Seq<char>,
    oracle_key: Seq<char>,
    oracle: Seq<char>,
) -> Seq<char> {
    instantiation(
        ASSET_TEMPLATE@,
        asset_bindings(runtime, block, transaction_payment, balance, call, oracle_key, oracle),
    )
}

/// Emits the asset fragment for the runtime `runtime` and the block type
/// `block`, over the pallets and types that the remaining identifiers name.
pub fn assets_apis(
    runtime: &str,
    block: &str,
    transaction_payment: &str,
    balance: &str,
    call: &str,
    oracle_key: &str,
    oracle: &str,
) -> (r: String)
    ensures
        r@ == asset_fragment(
            runtime@,
            block@,
            transaction_payment@,
            balance@,
            call@,
            oracle_key@,
            oracle@,
        ),
{
    let bindings = [
        ("runtime", runtime),
        ("block", block),
        ("transaction_payment", transaction_payment),
        ("balance", balance),
        ("call", call),
        ("oracle_key", oracle_key),
        ("oracle", oracle),
    ];
    assert(bindings_view(bindings@) =~= asset_bindings(
        runtime@,
        block@,
        transaction_payment@,
        balance@,
        call@,
        oracle_key@,
        oracle@,
    ));
    instantiate(ASSET_TEMPLATE, bindings.as_slice())
}

impl AssetAPIFields {
    /// The asset fragment for these fields in `context`.
    pub open spec fn fragment(self, context: Context) -> Seq<char> {
        asset_fragment(
            context.runtime@,
            context.block@,
            self.transaction_payment@,
            self.balance@,
            self.call@,
            self.oracle_key@,
            self.oracle@,
        )
    }

    /// Emits the asset fragment for these fields in `context`.
    pub fn synthesize(&self, context: &Context) -> (r: String)
        ensures
            r@ == self.fragment(*context),
    {
        assets_apis(
            context.runtime.as_str(),
            context.block.as_str(),
            self.transaction_payment.as_str(),
            self.balance.as_str(),
            self.call.as_str(),
            self.oracle_key.as_str(),
            self.oracle.as_str(),
        )
    }
}

/// Synthesis is determined by the text of its inputs: fields that bind the
/// same identifiers, in contexts of the same names, give the same fragment,
/// character for character.
pub proof fn lemma_asset_synthesis_deterministic(
    fields: AssetAPIFields,
    context: Context,
    other_fields: AssetAPIFields,
    other_context: Context,
)
    requires
        fields@ == other_fields@,
        context@ == other_context@,
    ensures
        fields.fragment(context) == other_fields.fragment(other_context),
{
    assert(fields@[0] == other_fields@[0]);
    assert(fields@[1] == other_fields@[1]);
    assert(fields@[2] == other_fields@[2]);
    assert(fields@[3] == other_fields@[3]);
    assert(fields@[4] == other_fields@[4]);
}

} // verus!
