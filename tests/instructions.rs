use anchor_lang::prelude::Pubkey;
use arc_bid::arcbid::{
    begin_resolution, create_auction, place_bid, resolve_auction, resolve_auction_callback,
    AuctionEndEvent, AuctionError, AuctionState, ErrorCode,
};
use arc_bid::dispatch::{Dispatcher, HandleStatus};
use arc_bid::le_bytes::read_le_u64;
use arcium_anchor::prelude::ArgumentRef;

fn key(b: u8) -> Pubkey {
    Pubkey::new_from_array([b; 32])
}

fn auction_with_bids(max: u8, n: u8) -> AuctionState {
    let mut a = create_auction(key(100), max);
    for i in 0..n {
        place_bid(&mut a, key(i + 1), [i + 1; 32]).unwrap();
    }
    a
}

fn field(v: u64) -> [u8; 32] {
    let mut f = [0u8; 32];
    f[..8].copy_from_slice(&v.to_le_bytes());
    f
}

#[test]
fn create_auction_is_open_and_empty() {
    let a = create_auction(key(9), 4);
    assert_eq!(a.authority, key(9));
    assert!(a.is_open);
    assert_eq!(a.bid_count, 0);
    assert_eq!(a.max_bidders, 4);
    assert_eq!(a.encrypted_bids, vec![[0u8; 32]; 4]);
    assert!(a.bidder_keys.is_empty());
}

#[test]
fn place_bid_fills_slots_in_order() {
    let a = auction_with_bids(4, 2);
    assert_eq!(a.bid_count, 2);
    assert_eq!(a.encrypted_bids, vec![[1u8; 32], [2u8; 32], [0u8; 32], [0u8; 32]]);
    assert_eq!(a.bidder_keys, vec![key(1), key(2)]);
}

#[test]
fn place_bid_on_full_auction_fails() {
    let mut a = auction_with_bids(4, 4);
    let before = a.encrypted_bids.clone();
    assert_eq!(place_bid(&mut a, key(50), [7u8; 32]), Err(AuctionError::AuctionFull));
    assert_eq!(a.encrypted_bids, before);
    assert_eq!(a.bid_count, 4);
    assert_eq!(a.bidder_keys.len(), 4);
}

#[test]
fn place_bid_on_closed_auction_fails() {
    let mut a = auction_with_bids(4, 2);
    begin_resolution(&mut a).unwrap();
    assert_eq!(place_bid(&mut a, key(50), [7u8; 32]), Err(AuctionError::AuctionClosed));
    assert_eq!(a.bid_count, 2);
}

#[test]
fn begin_resolution_returns_padded_snapshot_once() {
    let mut a = auction_with_bids(4, 2);
    let snapshot = begin_resolution(&mut a).unwrap();
    assert_eq!(snapshot, vec![[1u8; 32], [2u8; 32], [0u8; 32], [0u8; 32]]);
    assert!(!a.is_open);
    assert_eq!(begin_resolution(&mut a), Err(AuctionError::AuctionClosed));
}

#[test]
fn resolve_with_one_bid_fails_and_stays_open() {
    let mut a = auction_with_bids(4, 1);
    let mut d = Dispatcher::new();
    let r = resolve_auction(&mut a, &mut d, 7, [3u8; 32], 5);
    assert!(matches!(r, Err(AuctionError::NotEnoughBids)));
    assert!(a.is_open);
    assert_eq!(d.status(7), None);
}

#[test]
fn resolve_builds_arguments_and_issues_handle() {
    let mut a = auction_with_bids(4, 2);
    let mut d = Dispatcher::new();
    let l = resolve_auction(&mut a, &mut d, 7, [3u8; 32], 0xabcdef).unwrap();
    assert!(!a.is_open);
    assert_eq!(d.status(7), Some(HandleStatus::Pending));
    assert_eq!(l.args.len(), 6);
    assert!(matches!(l.args[0], ArgumentRef::X25519Pubkey(0)));
    assert!(matches!(l.args[1], ArgumentRef::PlaintextU128(0)));
    assert!(matches!(l.args[2], ArgumentRef::EncryptedU64(1)));
    assert!(matches!(l.args[5], ArgumentRef::EncryptedU64(4)));
    assert_eq!(l.values_128_bit, vec![0xabcdef]);
    assert_eq!(
        l.byte_arrays,
        vec![[3u8; 32], [1u8; 32], [2u8; 32], [0u8; 32], [0u8; 32]]
    );
}

#[test]
fn resolve_twice_fails_closed() {
    let mut a = auction_with_bids(4, 3);
    let mut d = Dispatcher::new();
    assert!(resolve_auction(&mut a, &mut d, 1, [0u8; 32], 1).is_ok());
    let r = resolve_auction(&mut a, &mut d, 2, [0u8; 32], 2);
    assert!(matches!(r, Err(AuctionError::AuctionClosed)));
    assert_eq!(d.status(2), None);
}

#[test]
fn resolve_with_duplicate_offset_fails_and_stays_open() {
    let mut first = auction_with_bids(2, 2);
    let mut second = auction_with_bids(4, 2);
    let mut d = Dispatcher::new();
    assert!(resolve_auction(&mut first, &mut d, 7, [0u8; 32], 1).is_ok());
    let r = resolve_auction(&mut second, &mut d, 7, [0u8; 32], 2);
    assert!(matches!(r, Err(AuctionError::DuplicateOffset)));
    assert!(second.is_open);
    assert_eq!(d.status(7), Some(HandleStatus::Pending));
}

#[test]
fn callback_for_unknown_handle_is_rejected() {
    let mut d = Dispatcher::new();
    let r = resolve_auction_callback(&mut d, 9, Some([field(1), field(40)]));
    assert_eq!(r, Err(ErrorCode::UnknownComputation));
    assert_eq!(d.status(9), None);
}

#[test]
fn callback_settles_and_decodes_winner() {
    let mut a = auction_with_bids(4, 4);
    let mut d = Dispatcher::new();
    resolve_auction(&mut a, &mut d, 11, [0u8; 32], 1).unwrap();
    let r = resolve_auction_callback(&mut d, 11, Some([field(1), field(40)]));
    assert_eq!(r, Ok(AuctionEndEvent { winner_idx: 1, amount: 40 }));
    assert_eq!(d.status(11), Some(HandleStatus::Verified));
}

#[test]
fn callback_with_failed_authentication_aborts() {
    let mut a = auction_with_bids(4, 2);
    let mut d = Dispatcher::new();
    resolve_auction(&mut a, &mut d, 3, [0u8; 32], 1).unwrap();
    assert_eq!(resolve_auction_callback(&mut d, 3, None), Err(ErrorCode::AbortedComputation));
    assert_eq!(d.status(3), Some(HandleStatus::Aborted));
    assert!(!a.is_open);
}

#[test]
fn replayed_callback_is_rejected() {
    let mut a = auction_with_bids(4, 2);
    let mut d = Dispatcher::new();
    resolve_auction(&mut a, &mut d, 5, [0u8; 32], 1).unwrap();
    assert!(resolve_auction_callback(&mut d, 5, Some([field(0), field(5)])).is_ok());
    let again = resolve_auction_callback(&mut d, 5, Some([field(0), field(5)]));
    assert_eq!(again, Err(ErrorCode::ComputationFinalized));
    assert_eq!(d.status(5), Some(HandleStatus::Verified));

    let mut b = auction_with_bids(4, 2);
    resolve_auction(&mut b, &mut d, 6, [0u8; 32], 1).unwrap();
    assert_eq!(resolve_auction_callback(&mut d, 6, None), Err(ErrorCode::AbortedComputation));
    let again = resolve_auction_callback(&mut d, 6, Some([field(0), field(5)]));
    assert_eq!(again, Err(ErrorCode::ComputationFinalized));
    assert_eq!(d.status(6), Some(HandleStatus::Aborted));
}

#[test]
fn read_le_u64_reads_first_eight_bytes() {
    let mut f = [0xffu8; 32];
    f[..8].copy_from_slice(&[0x01, 0x02, 0x03, 0x04, 0x05, 0x06, 0x07, 0x08]);
    assert_eq!(read_le_u64(&f), 0x0807_0605_0403_0201);
    assert_eq!(read_le_u64(&[0xffu8; 32]), u64::MAX);
    assert_eq!(read_le_u64(&[0u8; 32]), 0);
}
