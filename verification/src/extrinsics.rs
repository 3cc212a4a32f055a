//! The dispatch-call filter: of a list of extrinsics, the Ethereum
//! transactions.

use vstd::prelude::*;

verus! {

/// What an extrinsic dispatches.
#[derive(Debug)]
pub enum RuntimeCall<T> {
    /// The Ethereum pallet's `transact` call, with its transaction.
    Ethereum(T),
    /// A call of any other shape.
    Other,
}

/// An extrinsic, as far as the filter reads it.
#[derive(Debug)]
pub struct Extrinsic<T> {
    pub function: RuntimeCall<T>,
}

/// The transaction that an extrinsic carries, if it dispatches the Ethereum
/// `transact` call.
pub open spec fn payload<T>(xt: Extrinsic<T>) -> Option<T> {
    match xt.function {
        RuntimeCall::Ethereum(transaction) => Some(transaction),
        RuntimeCall::Other => None,
    }
}

/// The transactions of the extrinsics that dispatch the Ethereum `transact`
/// call, in the order of the extrinsics.
pub open spec fn ethereum_transactions<T>(xts: Seq<Extrinsic<T>>) -> Seq<T> {
    xts.filter_map(|xt: Extrinsic<T>| payload(xt))
}

/// Keeps of `xts` the extrinsics that dispatch the Ethereum `transact` call
/// and returns their transactions, in the order of `xts`. Every other
/// extrinsic is dropped.
pub fn extrinsic_filter<T>(xts: Vec<Extrinsic<T>>) -> (r: Vec<T>)
    ensures
        r@ == ethereum_transactions(xts@),
        r@.len() <= xts@.len(),
{
    let mut kept: Vec<T> = Vec::new();
    let ghost all = xts@;
    for xt in it: xts
        invariant
            it.seq() == all,
            kept@ == ethereum_transactions(all.take(it.index())),
            kept@.len() <= it.index(),
    {
        proof {
            let seen = all.take(it.index() + 1);
            assert(seen.drop_last() =~= all.take(it.index()));
            assert(seen.last() == xt);
        }
        match xt.function {
            RuntimeCall::Ethereum(transaction) => {
                kept.push(transaction);
            },
            RuntimeCall::Other => {},
        }
    }
    assert(all.take(all.len() as int) =~= all);
    kept
}

/// The positions in `xts` of the extrinsics that dispatch the Ethereum
/// `transact` call, in increasing order.
pub open spec fn transaction_positions<T>(xts: Seq<Extrinsic<T>>) -> Seq<int>
    decreases xts.len(),
{
    if xts.len() == 0 {
        Seq::empty()
    } else {
        let front = transaction_positions(xts.drop_last());
        if payload(xts.last()).is_some() {
            front.push(xts.len() - 1)
        } else {
            front
        }
    }
}

/// The filter returns exactly the transactions of the matching extrinsics,
/// in the relative order of the extrinsics, and never more than it was given:
/// transaction `j` of the result is carried by the extrinsic at the `j`th
/// matching position, those positions increase, and every matching
/// extrinsic is among them.
pub proof fn lemma_filter_selects_in_order<T>(xts: Seq<Extrinsic<T>>)
    ensures
        ethereum_transactions(xts).len() == transaction_positions(xts).len(),
        ethereum_transactions(xts).len() <= xts.len(),
        forall|j: int|
            0 <= j < transaction_positions(xts).len() ==> {
                let i = #[trigger] transaction_positions(xts)[j];
                0 <= i < xts.len() && payload(xts[i]) == Some(ethereum_transactions(xts)[j])
            },
        forall|j: int, k: int|
            0 <= j < k < transaction_positions(xts).len() ==> transaction_positions(xts)[j]
                < transaction_positions(xts)[k],
        forall|i: int|
            0 <= i < xts.len() && payload(#[trigger] xts[i]).is_some()
                ==> transaction_positions(xts).contains(i),
    decreases xts.len(),
{
    if xts.len() > 0 {
        let front = xts.drop_last();
        lemma_filter_selects_in_order(front);
        let at = transaction_positions(xts);
        let kept = ethereum_transactions(xts);
        assert forall|j: int| 0 <= j < transaction_positions(front).len() implies #[trigger] at[j]
            == transaction_positions(front)[j] && kept[j] == ethereum_transactions(front)[j]
            && xts[at[j]] == front[at[j]] by {}
        assert forall|i: int| 0 <= i < xts.len() && payload(#[trigger] xts[i]).is_some() implies at
            .contains(i) by {
            if i < front.len() {
                assert(front[i] == xts[i]);
                let j = choose|j: int|
                    0 <= j < transaction_positions(front).len() && transaction_positions(front)[j]
                        == i;
                assert(at[j] == i);
            } else {
                assert(at[at.len() - 1] == i);
            }
        }
    }
}

} // verus!
