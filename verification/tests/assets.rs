use pallet_abstractions::assets::{assets_apis, AssetAPIFields};
use pallet_abstractions::context::Context;
use pallet_abstractions::declaration::DeclarationItem;
use pallet_abstractions::extract::extract;
use pallet_abstractions::resolver::TypeExpression;
use pallet_abstractions::schema::FieldSchema;

fn binding(name: &str, target: &str) -> DeclarationItem {
    DeclarationItem::type_alias(name, TypeExpression::ident(target))
}

fn identifiers(tokens: proc_macro2::TokenStream) -> Vec<String> {
    let mut found = Vec::new();
    for token in tokens {
        match token {
            proc_macro2::TokenTree::Ident(ident) => found.push(ident.to_string()),
            proc_macro2::TokenTree::Group(group) => found.extend(identifiers(group.stream())),
            _ => {}
        }
    }
    found
}

fn complete() -> Vec<DeclarationItem> {
    vec![
        binding("Oracle", "OraclePallet"),
        binding("Executive", "Exec"),
        binding("TransactionPayment", "Payment"),
        DeclarationItem::Other,
        binding("OracleKey", "AssetId"),
        binding("RuntimeCall", "Call"),
        binding("Balance", "u128"),
    ]
}

fn without(name: &str) -> Vec<DeclarationItem> {
    complete()
        .into_iter()
        .filter(|item| match item {
            DeclarationItem::TypeAlias { name: n, .. } => n != name,
            DeclarationItem::Other => true,
        })
        .collect()
}

const EXPECTED: &str = "impl pallet_transaction_payment_rpc_runtime_api::TransactionPaymentApi<Block, Balance>
    for Runtime
{
    fn query_info(
        uxt: <Block as sp_runtime::traits::Block>::Extrinsic,
        len: u32,
    ) -> pallet_transaction_payment_rpc_runtime_api::RuntimeDispatchInfo<Balance> {
        TransactionPayment::query_info(uxt, len)
    }
    fn query_fee_details(
        uxt: <Block as sp_runtime::traits::Block>::Extrinsic,
        len: u32,
    ) -> pallet_transaction_payment::FeeDetails<Balance> {
        TransactionPayment::query_fee_details(uxt, len)
    }
    fn query_weight_to_fee(weight: frame_support::weights::Weight) -> Balance {
        TransactionPayment::weight_to_fee(weight)
    }
    fn query_length_to_fee(length: u32) -> Balance {
        TransactionPayment::length_to_fee(length)
    }
}

impl
    pallet_transaction_payment_rpc_runtime_api::TransactionPaymentCallApi<
        Block,
        Balance,
        RuntimeCall,
    > for Runtime
{
    fn query_call_info(
        call: RuntimeCall,
        len: u32,
    ) -> pallet_transaction_payment::RuntimeDispatchInfo<Balance> {
        TransactionPayment::query_call_info(call, len)
    }
    fn query_call_fee_details(
        call: RuntimeCall,
        len: u32,
    ) -> pallet_transaction_payment::FeeDetails<Balance> {
        TransactionPayment::query_call_fee_details(call, len)
    }
    fn query_weight_to_fee(weight: frame_support::weights::Weight) -> Balance {
        TransactionPayment::weight_to_fee(weight)
    }
    fn query_length_to_fee(length: u32) -> Balance {
        TransactionPayment::length_to_fee(length)
    }
}

impl orml_oracle_runtime_api::OracleApi<
    Block,
    (),
    AssetId,
    orml_oracle::TimestampedValue<sp_runtime::FixedU128, u64>,
> for Runtime {
    fn get_value(_: (), key: AssetId) -> Option<orml_oracle::TimestampedValue<sp_runtime::FixedU128, u64>> {
        Oracle::get(&key)
    }

    fn get_all_values(_: ()) -> sp_std::prelude::Vec<(AssetId, Option<orml_oracle::TimestampedValue<sp_runtime::FixedU128, u64>>)> {
        Oracle::get_all_values()
    }
}
";

#[test]
fn asset_fields_are_taken_from_their_declarations() {
    let fields = AssetAPIFields::try_from(&complete()[..]).unwrap();
    assert_eq!(fields.transaction_payment, "Payment");
    assert_eq!(fields.balance, "u128");
    assert_eq!(fields.call, "Call");
    assert_eq!(fields.oracle_key, "AssetId");
    assert_eq!(fields.oracle, "OraclePallet");
}

#[test]
fn a_later_asset_declaration_replaces_an_earlier_one() {
    let mut items = complete();
    items.push(binding("Balance", "u64"));
    items.push(DeclarationItem::type_alias(
        "Oracle",
        TypeExpression::path(&["orml", "Oracle"]),
    ));
    let fields = AssetAPIFields::try_from(&items[..]).unwrap();
    assert_eq!(fields.balance, "u64");
    assert_eq!(fields.oracle, "Oracle");
    assert_eq!(fields.transaction_payment, "Payment");
}

#[test]
fn each_missing_asset_field_has_its_diagnostic() {
    let cases = [
        ("TransactionPayment", "`type TransactionPayment` not specified, but required"),
        ("Balance", "`type Balance` not specified, but required"),
        ("RuntimeCall", "`type RuntimeCall` not specified, but required"),
        ("OracleKey", "`type OracleKey` not specified, but required"),
        ("Oracle", "`type Oracle` not specified, but required"),
    ];
    for (name, message) in cases {
        assert_eq!(AssetAPIFields::try_from(&without(name)[..]).err(), Some(message));
    }
}

#[test]
fn asset_fields_are_validated_in_schema_order() {
    assert_eq!(
        AssetAPIFields::try_from(&[][..]).err(),
        Some("`type TransactionPayment` not specified, but required")
    );
    let items = vec![binding("TransactionPayment", "Payment"), binding("Oracle", "Oracle")];
    assert_eq!(
        AssetAPIFields::try_from(&items[..]).err(),
        Some("`type Balance` not specified, but required")
    );
    let items = vec![
        binding("TransactionPayment", "Payment"),
        binding("Balance", "u128"),
        binding("Oracle", "Oracle"),
    ];
    assert_eq!(
        AssetAPIFields::try_from(&items[..]).err(),
        Some("`type RuntimeCall` not specified, but required")
    );
}

#[test]
fn each_unresolvable_asset_field_has_its_diagnostic() {
    let cases = [
        ("TransactionPayment", "`type TransactionPayment` does not resolve to a single identifier"),
        ("Balance", "`type Balance` does not resolve to a single identifier"),
        ("RuntimeCall", "`type RuntimeCall` does not resolve to a single identifier"),
        ("OracleKey", "`type OracleKey` does not resolve to a single identifier"),
        ("Oracle", "`type Oracle` does not resolve to a single identifier"),
    ];
    for (name, message) in cases {
        let mut items = complete();
        items.push(DeclarationItem::type_alias(name, TypeExpression::Other));
        assert_eq!(AssetAPIFields::try_from(&items[..]).err(), Some(message));
    }
}

#[test]
fn the_asset_fragment_is_the_skeleton_with_the_identifiers_in_place() {
    let fragment = assets_apis(
        "Runtime",
        "Block",
        "TransactionPayment",
        "Balance",
        "RuntimeCall",
        "AssetId",
        "Oracle",
    );
    assert_eq!(fragment, EXPECTED);
}

#[test]
fn the_asset_fragment_delegates_to_the_named_pallets() {
    let fragment = assets_apis("Chain", "Blk", "Fees", "u128", "Call", "Key", "Prices");
    assert!(fragment.starts_with(
        "impl pallet_transaction_payment_rpc_runtime_api::TransactionPaymentApi<Blk, u128>\n    for Chain\n{"
    ));
    assert!(fragment.contains("Fees::query_info(uxt, len)"));
    assert!(fragment.contains("Fees::query_fee_details(uxt, len)"));
    assert!(fragment.contains("Fees::query_call_info(call, len)"));
    assert!(fragment.contains("Fees::query_call_fee_details(call, len)"));
    assert!(fragment.contains("fn query_weight_to_fee(weight: frame_support::weights::Weight) -> u128 {"));
    assert!(fragment.contains("Fees::length_to_fee(length)"));
    assert!(fragment.contains("fn get_value(_: (), key: Key)"));
    assert!(fragment.contains("Prices::get(&key)"));
    assert!(fragment.contains("Prices::get_all_values()"));
    assert_eq!(fragment.matches("Fees::").count(), 8);
    assert_eq!(fragment.matches("Prices::").count(), 2);
    assert!(!fragment.contains('#'));
}

#[test]
fn the_asset_fragment_is_three_implementations() {
    let fragment = assets_apis("Runtime", "Block", "Payment", "Balance", "Call", "Key", "Oracle");
    let file = syn::parse_file(&fragment).unwrap();
    assert_eq!(file.items.len(), 3);
    let methods: Vec<usize> = file
        .items
        .iter()
        .map(|item| match item {
            syn::Item::Impl(block) => block.items.len(),
            _ => panic!("an impl block was expected"),
        })
        .collect();
    assert_eq!(methods, vec![4, 4, 2]);
    assert!(fragment.parse::<proc_macro2::TokenStream>().is_ok());
}

#[test]
fn asset_synthesis_gives_the_same_fragment_for_the_same_input() {
    let fields = AssetAPIFields::try_from(&complete()[..]).unwrap();
    let again = AssetAPIFields::try_from(&complete()[..]).unwrap();
    let context = Context::new("Runtime", "Block");
    let first = fields.synthesize(&context);
    assert_eq!(first, fields.synthesize(&context));
    assert_eq!(first, again.synthesize(&Context::new("Runtime", "Block")));
    assert_eq!(
        first,
        assets_apis("Runtime", "Block", "Payment", "u128", "Call", "AssetId", "OraclePallet")
    );
}

#[test]
fn every_implementation_of_the_asset_fragment_is_for_the_given_runtime() {
    let fragment = assets_apis("Rt", "Blk", "TP", "Bal", "Call", "Key", "Orc");
    let tokens: proc_macro2::TokenStream = fragment.parse().unwrap();
    assert!(!identifiers(tokens).contains(&"Runtime".to_string()));
    assert_eq!(fragment.matches(" for Rt").count(), 3);
    let file = syn::parse_file(&fragment).unwrap();
    let implemented: Vec<(String, String)> = file
        .items
        .iter()
        .map(|item| match item {
            syn::Item::Impl(block) => {
                let for_type = match &*block.self_ty {
                    syn::Type::Path(path) => path.path.segments.last().unwrap().ident.to_string(),
                    _ => panic!("a named type was expected"),
                };
                let api = block.trait_.as_ref().unwrap().1.segments.last().unwrap();
                (api.ident.to_string(), for_type)
            }
            _ => panic!("an impl block was expected"),
        })
        .collect();
    assert_eq!(
        implemented,
        vec![
            ("TransactionPaymentApi".to_string(), "Rt".to_string()),
            ("TransactionPaymentCallApi".to_string(), "Rt".to_string()),
            ("OracleApi".to_string(), "Rt".to_string()),
        ]
    );
    assert!(fragment.contains("impl pallet_transaction_payment_rpc_runtime_api::TransactionPaymentApi<Blk, Bal>\n    for Rt\n{"));
    assert!(fragment.contains("Blk,\n        Bal,\n        Call,\n    > for Rt\n{"));
    assert!(fragment.contains("orml_oracle::TimestampedValue<sp_runtime::FixedU128, u64>,\n> for Rt {"));
}

#[test]
fn the_asset_message_is_the_message_of_the_extraction_error() {
    let mut sequences = vec![Vec::new()];
    for name in ["TransactionPayment", "Balance", "RuntimeCall", "OracleKey", "Oracle"] {
        sequences.push(without(name));
        let mut items = complete();
        items.push(DeclarationItem::type_alias(name, TypeExpression::Other));
        sequences.push(items);
    }
    for items in sequences {
        let error = extract(&items, &FieldSchema::asset()).unwrap_err();
        assert_eq!(
            AssetAPIFields::try_from(&items[..]).err(),
            Some(error.message().as_str())
        );
    }
}
