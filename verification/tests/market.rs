use zapcoin::errors::ErrorCode;
use zapcoin::market::{create_listing, purchase_listing, Listing};

const SELLER: u64 = 3;

#[test]
fn create_listing_escrows_and_activates() {
    let listing = create_listing(SELLER, 200, 5).unwrap();
    assert_eq!(
        listing,
        Listing { seller: SELLER, amount: 200, price_per_token: 5, active: true }
    );
}

#[test]
fn create_listing_of_zero_is_rejected() {
    assert_eq!(create_listing(SELLER, 0, 5), Err(ErrorCode::InvalidAmount));
}

#[test]
fn draining_purchase_deactivates_the_listing() {
    let mut listing = create_listing(SELLER, 200, 5).unwrap();
    assert_eq!(purchase_listing(&mut listing, 200), Ok(1000));
    assert_eq!(listing.amount, 0);
    assert!(!listing.active);
    assert_eq!(
        purchase_listing(&mut listing, 1),
        Err(ErrorCode::ListingNotActive)
    );
    assert_eq!(listing.amount, 0);
}

#[test]
fn purchase_beyond_stock_is_rejected_and_changes_nothing() {
    let mut listing = create_listing(SELLER, 50, 2).unwrap();
    assert_eq!(
        purchase_listing(&mut listing, 60),
        Err(ErrorCode::InsufficientListingAmount)
    );
    assert_eq!(listing.amount, 50);
    assert!(listing.active);
}

#[test]
fn partial_fills_keep_the_listing_consistent() {
    let mut listing = create_listing(SELLER, 100, 3).unwrap();
    assert_eq!(purchase_listing(&mut listing, 40), Ok(120));
    assert_eq!(listing.amount, 60);
    assert_eq!(listing.active, listing.amount > 0);
    assert!(listing.active);
    assert_eq!(purchase_listing(&mut listing, 60), Ok(180));
    assert_eq!(listing.amount, 0);
    assert_eq!(listing.active, listing.amount > 0);
    assert!(!listing.active);
}

#[test]
fn purchase_price_is_amount_times_unit_price() {
    let mut listing = create_listing(SELLER, 10, 7).unwrap();
    assert_eq!(purchase_listing(&mut listing, 3), Ok(21));
    assert_eq!(listing.amount, 7);
}

#[test]
fn overflowing_price_is_rejected_and_changes_nothing() {
    let mut listing = Listing {
        seller: SELLER,
        amount: 2,
        price_per_token: u64::MAX,
        active: true,
    };
    assert_eq!(
        purchase_listing(&mut listing, 2),
        Err(ErrorCode::ArithmeticOverflow)
    );
    assert_eq!(listing.amount, 2);
    assert!(listing.active);
}
