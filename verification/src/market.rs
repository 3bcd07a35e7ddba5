use vstd::prelude::*;

use crate::errors::ErrorCode;

verus! {

/// An offer to sell a fixed quantity of escrowed credit at a fixed
/// per-unit price.
///
/// `amount` is the credit still held in the listing's escrow balance; it
/// only shrinks as purchases fill the listing. `price_per_token` is fixed
/// at creation. The record is keyed by `seller`; deriving an address from
/// it and rejecting a duplicate listing is the storage layer's duty,
/// outside this crate.
#[derive(Clone, Copy, Debug, PartialEq, Eq, Structural)]
pub struct Listing {
    pub seller: u64,
    pub amount: u64,
    pub price_per_token: u64,
    pub active: bool,
}

/// The invariant every listing maintains: it is active exactly while it
/// still holds credit to sell.
pub open spec fn listing_wf(l: Listing) -> bool {
    l.active == (l.amount > 0)
}

/// When a purchase of `amount` is accepted against listing state `l`: the
/// listing is active, holds at least that much credit, and the price
/// computation does not overflow.
pub open spec fn purchase_accepted(l: Listing, amount: u64) -> bool {
    &&& l.active
    &&& amount <= l.amount
    &&& amount * l.price_per_token <= u64::MAX
}

/// The listing state after an accepted purchase of `amount`: the escrowed
/// quantity shrinks by exactly the purchase, and `active` is recomputed
/// from the quantity left — it drops exactly on the purchase that drains
/// the listing.
pub open spec fn apply_purchase(l: Listing, amount: u64) -> Listing
    recommends
        amount <= l.amount,
{
    Listing { amount: (l.amount - amount) as u64, active: l.amount - amount > 0, ..l }
}

/// One purchase attempt within a session: an accepted request moves the
/// listing as `apply_purchase` says; a rejected one leaves it untouched.
pub open spec fn purchase_step(l: Listing, amount: u64) -> Listing {
    if purchase_accepted(l, amount) {
        apply_purchase(l, amount)
    } else {
        l
    }
}

/// The listing state after a session of purchase attempts applied in
/// order.
pub open spec fn apply_purchases(l: Listing, requests: Seq<u64>) -> Listing
    decreases requests.len(),
{
    if requests.len() == 0 {
        l
    } else {
        apply_purchases(purchase_step(l, requests[0]), requests.drop_first())
    }
}

/// Law of listing monotonicity: across any session of purchase attempts
/// on a well-formed listing, the escrowed `amount` never grows, the
/// seller and price never move, and the listing reads active exactly
/// while credit remains — including after the purchase that drains it to
/// zero.
pub proof fn lemma_purchases_monotone(l: Listing, requests: Seq<u64>)
    requires
        listing_wf(l),
    ensures
        listing_wf(apply_purchases(l, requests)),
        apply_purchases(l, requests).amount <= l.amount,
        apply_purchases(l, requests).seller == l.seller,
        apply_purchases(l, requests).price_per_token == l.price_per_token,
    decreases requests.len(),
{
    if requests.len() > 0 {
        lemma_purchases_monotone(purchase_step(l, requests[0]), requests.drop_first());
    }
}

/// Creates a listing of `amount` credit at `price_per_token` for `seller`.
///
/// A zero quantity is rejected. The outer shell must move `amount` credit
/// from the seller to the listing's escrow balance and commit the record
/// together with that transfer, or neither — if the transfer fails for
/// insufficient balance, no listing comes into being.
pub fn create_listing(seller: u64, amount: u64, price_per_token: u64) -> (r: Result<
    Listing,
    ErrorCode,
>)
    ensures
        amount == 0 ==> r == Err::<Listing, ErrorCode>(ErrorCode::InvalidAmount),
        amount > 0 ==> r == Ok::<Listing, ErrorCode>(
            Listing { seller, amount, price_per_token, active: true },
        ),
        r is Ok ==> listing_wf(r->Ok_0),
{
    if amount == 0 {
        return Err(ErrorCode::InvalidAmount);
    }
    Ok(Listing { seller, amount, price_per_token, active: true })
}

/// Fills a purchase of `amount` credit against the listing and returns the
/// total price the buyer owes, `amount * price_per_token`.
///
/// The outer shell must move `amount` credit from the listing's escrow to
/// the buyer and commit the updated listing together with that transfer,
/// or neither; settling the returned price against the buyer is reconciled
/// over whatever payment channel the shell uses and is outside this
/// ledger. On any rejection the listing is unchanged and the code says
/// which check failed; the checks run in the order listed in the contract.
pub fn purchase_listing(listing: &mut Listing, amount: u64) -> (r: Result<u64, ErrorCode>)
    ensures
        r is Ok <==> purchase_accepted(*old(listing), amount),
        r is Ok ==> *final(listing) == apply_purchase(*old(listing), amount) && r->Ok_0 == amount
            * old(listing).price_per_token,
        r is Err ==> *final(listing) == *old(listing),
        !old(listing).active ==> r == Err::<u64, ErrorCode>(ErrorCode::ListingNotActive),
        old(listing).active && amount > old(listing).amount ==> r == Err::<u64, ErrorCode>(
            ErrorCode::InsufficientListingAmount,
        ),
        old(listing).active && amount <= old(listing).amount
            && amount * old(listing).price_per_token > u64::MAX
            ==> r == Err::<u64, ErrorCode>(ErrorCode::ArithmeticOverflow),
        final(listing).amount <= old(listing).amount,
        final(listing).seller == old(listing).seller,
        final(listing).price_per_token == old(listing).price_per_token,
        r is Ok ==> final(listing).active == (final(listing).amount > 0),
        listing_wf(*old(listing)) ==> listing_wf(*final(listing)),
{
    if !listing.active {
        return Err(ErrorCode::ListingNotActive);
    }
    if amount > listing.amount {
        return Err(ErrorCode::InsufficientListingAmount);
    }
    let total_price = match amount.checked_mul(listing.price_per_token) {
        Some(price) => price,
        None => {
            return Err(ErrorCode::ArithmeticOverflow);
        },
    };
    listing.amount = listing.amount - amount;
    listing.active = listing.amount > 0;
    Ok(total_price)
}

} // verus!
