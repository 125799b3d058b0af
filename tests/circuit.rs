use arc_bid::blind_auction::{resolve_auction, select, AuctionBatch, AuctionResult};

fn winner(bids: Vec<u64>) -> AuctionResult {
    resolve_auction(&AuctionBatch { bids })
}

#[test]
fn tie_in_final_goes_to_lower_index() {
    let r = winner(vec![10, 40, 25, 40]);
    assert_eq!(r, AuctionResult { winner_index: 1, winning_bid: 40 });
}

#[test]
fn two_bids_with_padding() {
    let r = winner(vec![5, 3, 0, 0]);
    assert_eq!(r, AuctionResult { winner_index: 0, winning_bid: 5 });
}

#[test]
fn highest_bid_in_second_pair_wins() {
    let r = winner(vec![7, 2, 9, 8]);
    assert_eq!(r, AuctionResult { winner_index: 2, winning_bid: 9 });
}

#[test]
fn right_entrant_wins_when_strictly_higher() {
    let r = winner(vec![1, 2, 3, 4]);
    assert_eq!(r, AuctionResult { winner_index: 3, winning_bid: 4 });
}

#[test]
fn tie_within_pair_goes_to_left() {
    let r = winner(vec![6, 6, 1, 1]);
    assert_eq!(r, AuctionResult { winner_index: 0, winning_bid: 6 });
}

#[test]
fn zero_bid_ties_padding_and_wins_by_index() {
    let r = winner(vec![0, 0, 0, 0]);
    assert_eq!(r, AuctionResult { winner_index: 0, winning_bid: 0 });
}

#[test]
fn padding_never_wins_over_a_real_bid() {
    let r = winner(vec![0, 1, 0, 0]);
    assert_eq!(r, AuctionResult { winner_index: 1, winning_bid: 1 });
}

#[test]
fn odd_entrant_passes_unplayed() {
    let r = winner(vec![1, 5, 5]);
    assert_eq!(r, AuctionResult { winner_index: 1, winning_bid: 5 });
    let r = winner(vec![1, 2, 9]);
    assert_eq!(r, AuctionResult { winner_index: 2, winning_bid: 9 });
}

#[test]
fn single_slot_wins() {
    let r = winner(vec![42]);
    assert_eq!(r, AuctionResult { winner_index: 0, winning_bid: 42 });
}

#[test]
fn largest_values_compare() {
    let r = winner(vec![u64::MAX - 1, 3, u64::MAX, u64::MAX]);
    assert_eq!(r, AuctionResult { winner_index: 2, winning_bid: u64::MAX });
}

#[test]
fn eight_slots() {
    let r = winner(vec![3, 8, 8, 1, 0, 9, 9, 2]);
    assert_eq!(r, AuctionResult { winner_index: 5, winning_bid: 9 });
}

#[test]
fn select_picks_by_condition() {
    assert_eq!(select(true, 11, 22), 11);
    assert_eq!(select(false, 11, 22), 22);
    assert_eq!(select(true, u64::MAX, 0), u64::MAX);
    assert_eq!(select(false, u64::MAX, 0), 0);
}
