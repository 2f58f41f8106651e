//! Laws of the purchase flow that span more than one step, stated over the
//! map views that the steps' own contracts use.
//!
//! The single-step guarantees stand on the steps themselves: an unauthorized
//! or failed authorization leaves the state untouched and issues no payment
//! (`is_whitelisted_callback`), a failed transfer writes nothing
//! (`add_info`), and the accessors return exactly what the store holds.

use vstd::prelude::*;

verus! {

/// A completed authorized purchase stores exactly the supplied pair for the
/// buyer — the maps `add_info` leaves behind hold `option` and `shipping`
/// under the buyer's identity — and no other buyer's record is created,
/// removed, or changed by it.
pub proof fn lemma_purchase_records_exact(
    options0: Map<Seq<char>, Seq<char>>,
    shipping0: Map<Seq<char>, Seq<char>>,
    buyer: Seq<char>,
    shipping: Seq<char>,
    option: Seq<char>,
)
    ensures
        options0.insert(buyer, option).dom().contains(buyer),
        options0.insert(buyer, option)[buyer] == option,
        shipping0.insert(buyer, shipping).dom().contains(buyer),
        shipping0.insert(buyer, shipping)[buyer] == shipping,
        forall|k: Seq<char>|
            k != buyer ==> (options0.insert(buyer, option).dom().contains(k) <==> options0.dom().contains(
                k,
            )),
        forall|k: Seq<char>|
            k != buyer && options0.dom().contains(k) ==> options0.insert(buyer, option)[k]
                == options0[k],
        forall|k: Seq<char>|
            k != buyer ==> (shipping0.insert(buyer, shipping).dom().contains(k)
                <==> shipping0.dom().contains(k)),
        forall|k: Seq<char>|
            k != buyer && shipping0.dom().contains(k) ==> shipping0.insert(buyer, shipping)[k]
                == shipping0[k],
{
}

/// Overwrite: running the flow twice for the same authorized buyer leaves
/// only the second pair stored — the maps after the two writes are exactly
/// the maps a single write of the second pair would have produced, with no
/// trace of the first.
pub proof fn lemma_purchase_overwrite(
    options0: Map<Seq<char>, Seq<char>>,
    shipping0: Map<Seq<char>, Seq<char>>,
    buyer: Seq<char>,
    shipping1: Seq<char>,
    option1: Seq<char>,
    shipping2: Seq<char>,
    option2: Seq<char>,
)
    ensures
        options0.insert(buyer, option1).insert(buyer, option2) == options0.insert(buyer, option2),
        shipping0.insert(buyer, shipping1).insert(buyer, shipping2) == shipping0.insert(
            buyer,
            shipping2,
        ),
        options0.insert(buyer, option1).insert(buyer, option2)[buyer] == option2,
        shipping0.insert(buyer, shipping1).insert(buyer, shipping2)[buyer] == shipping2,
{
    assert(options0.insert(buyer, option1).insert(buyer, option2) =~= options0.insert(
        buyer,
        option2,
    ));
    assert(shipping0.insert(buyer, shipping1).insert(buyer, shipping2) =~= shipping0.insert(
        buyer,
        shipping2,
    ));
}

} // verus!
