//! Field schemas: the closed sets of field names that extraction looks for.

use vstd::prelude::*;

verus! {

/// The names of the fields that the two domains require.
pub const TRANSACTION_PAYMENT: &'static str = "TransactionPayment";

pub const BALANCE: &'static str = "Balance";

pub const RUNTIME_CALL: &'static str = "RuntimeCall";

pub const ORACLE_KEY: &'static str = "OracleKey";

pub const ORACLE: &'static str = "Oracle";

pub const EXECUTIVE: &'static str = "Executive";

pub const ETHEREUM: &'static str = "Ethereum";

/// The field names that one synthesis domain requires, in the order in which
/// they are validated.
#[derive(Debug)]
pub struct FieldSchema {
    pub names: Vec<String>,
}

impl View for FieldSchema {
    type V = Seq<Seq<char>>;

    open spec fn view(&self) -> Seq<Seq<char>> {
        self.names@.map_values(|n: String| n@)
    }
}

/// The fields of the asset domain, in validation order.
pub open spec fn asset_fields() -> Seq<Seq<char>> {
    seq![TRANSACTION_PAYMENT@, BALANCE@, RUNTIME_CALL@, ORACLE_KEY@, ORACLE@]
}

/// The fields of the EVM domain, in validation order.
pub open spec fn evm_fields() -> Seq<Seq<char>> {
    seq![RUNTIME_CALL@, EXECUTIVE@, ETHEREUM@]
}

impl FieldSchema {
    /// The schema whose fields are `names`, in order.
    pub fn new(names: &[&str]) -> (r: FieldSchema)
        ensures
            r@ == names@.map_values(|n: &str| n@),
    {
        let mut owned: Vec<String> = Vec::new();
        let mut i: usize = 0;
        while i < names.len()
            invariant
                i <= names@.len(),
                owned@.len() == i,
                forall|j: int| 0 <= j < i ==> (#[trigger] owned@[j])@ == names@[j]@,
            decreases names@.len() - i,
        {
            owned.push(names[i].to_owned());
            i += 1;
        }
        let schema = FieldSchema { names: owned };
        assert(schema@ =~= names@.map_values(|n: &str| n@));
        schema
    }

    /// The schema of the asset domain.
    pub fn asset() -> (r: FieldSchema)
        ensures
            r@ == asset_fields(),
    {
        let names = [TRANSACTION_PAYMENT, BALANCE, RUNTIME_CALL, ORACLE_KEY, ORACLE];
        let schema = FieldSchema::new(names.as_slice());
        assert(schema@ =~= asset_fields());
        schema
    }

    /// The schema of the EVM domain.
    pub fn evm() -> (r: FieldSchema)
        ensures
            r@ == evm_fields(),
    {
        let names = [RUNTIME_CALL, EXECUTIVE, ETHEREUM];
        let schema = FieldSchema::new(names.as_slice());
        assert(schema@ =~= evm_fields());
        schema
    }

    /// The number of fields.
    pub fn len(&self) -> (n: usize)
        ensures
            n == self@.len(),
    {
        self.names.len()
    }
}

} // verus!
