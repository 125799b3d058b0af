//! The auction's instructions: creating an auction, collecting sealed bids,
//! closing it for resolution and settling the circuit's signed result.
use vstd::prelude::*;
use anchor_lang::prelude::Pubkey;
use arcium_anchor::prelude::ArgumentList;
use crate::dispatch::{list_args, resolution_args, Dispatcher, HandleStatus};
use crate::le_bytes::{le_u64, read_le_u64};

verus! {

/// anchor_lang's `Pubkey`: account identities, carried through unread.
#[verifier::external_type_specification]
#[verifier::external_body]
pub struct ExPubkey(Pubkey);

/// The widest auction supported: the computation's argument list addresses
/// its byte arrays with one byte, and holds the requester's key beside the
/// bids.
pub const MAX_SLOTS: u8 = 254;

/// The sentinel ciphertext of an unused bid slot: all zero.
pub open spec fn is_empty_slot(c: [u8; 32]) -> bool {
    forall|i: int| 0 <= i < 32 ==> #[trigger] c@[i] == 0
}

/// The all-zero ciphertext.
pub fn empty_slot() -> (r: [u8; 32])
    ensures
        is_empty_slot(r),
{
    [0u8; 32]
}

/// Errors of the bid registry and of dispatching a resolution.
#[derive(Clone, Copy, Debug, PartialEq, Eq, Structural)]
pub enum AuctionError {
    AuctionClosed,
    AuctionFull,
    NotEnoughBids,
    DuplicateOffset,
}

/// Errors of settling a computation's result.
#[derive(Clone, Copy, Debug, PartialEq, Eq, Structural)]
pub enum ErrorCode {
    /// The signed output failed authentication; the handle is aborted.
    AbortedComputation,
    /// The backend cluster is not configured.
    ClusterNotSet,
    /// No resolution was requested at this offset.
    UnknownComputation,
    /// The handle at this offset was already verified or aborted.
    ComputationFinalized,
}

/// The public record of a settled auction.
#[derive(Clone, Copy, Debug, PartialEq, Eq, Structural)]
pub struct AuctionEndEvent {
    pub winner_idx: u8,
    pub amount: u64,
}

/// One auction instance.
pub struct AuctionState {
    pub authority: Pubkey,
    pub is_open: bool,
    pub bid_count: u8,
    /// Number of bidder slots; the circuit always receives this many bids.
    pub max_bidders: u8,
    /// One ciphertext per slot, in submission order; unused slots hold
    /// the all-zero ciphertext.
    pub encrypted_bids: Vec<[u8; 32]>,
    /// The bidder of each populated slot, in submission order.
    pub bidder_keys: Vec<Pubkey>,
}

impl AuctionState {
    /// Slots fill in order, unused ones stay zero, and an auction closes
    /// only once it holds two bids.
    pub open spec fn wf(&self) -> bool {
        &&& self.max_bidders <= MAX_SLOTS
        &&& self.bid_count <= self.max_bidders
        &&& self.encrypted_bids@.len() == self.max_bidders
        &&& self.bidder_keys@.len() == self.bid_count
        &&& forall|i: int|
            self.bid_count <= i < self.max_bidders ==> is_empty_slot(#[trigger] self.encrypted_bids@[i])
        &&& !self.is_open ==> self.bid_count >= 2
    }

    /// The same auction with resolution requested.
    pub open spec fn closed(&self) -> AuctionState {
        AuctionState { is_open: false, ..*self }
    }
}

/// Why `begin_resolution` refuses `s`, if it does.
pub open spec fn resolution_error(s: AuctionState) -> Option<AuctionError> {
    if !s.is_open {
        Some(AuctionError::AuctionClosed)
    } else if s.bid_count < 2 {
        Some(AuctionError::NotEnoughBids)
    } else {
        None
    }
}

/// Why `place_bid` refuses a bid on `s`, if it does.
pub open spec fn bid_error(s: AuctionState) -> Option<AuctionError> {
    if !s.is_open {
        Some(AuctionError::AuctionClosed)
    } else if s.bid_count >= s.max_bidders {
        Some(AuctionError::AuctionFull)
    } else {
        None
    }
}

/// A new open auction of `max_bidders` empty slots.
pub fn create_auction(authority: Pubkey, max_bidders: u8) -> (r: AuctionState)
    requires
        max_bidders <= MAX_SLOTS,
    ensures
        r.wf(),
        r.authority == authority,
        r.is_open,
        r.bid_count == 0,
        r.max_bidders == max_bidders,
        r.encrypted_bids@.len() == max_bidders,
        forall|i: int| 0 <= i < max_bidders ==> is_empty_slot(#[trigger] r.encrypted_bids@[i]),
        r.bidder_keys@ == Seq::<Pubkey>::empty(),
{
    let mut encrypted_bids: Vec<[u8; 32]> = Vec::new();
    let mut i: u8 = 0;
    while i < max_bidders
        invariant
            i <= max_bidders,
            encrypted_bids@.len() == i,
            forall|j: int| 0 <= j < i ==> is_empty_slot(#[trigger] encrypted_bids@[j]),
        decreases max_bidders - i,
    {
        encrypted_bids.push(empty_slot());
        i = i + 1;
    }
    AuctionState {
        authority,
        is_open: true,
        bid_count: 0,
        max_bidders,
        encrypted_bids,
        bidder_keys: Vec::new(),
    }
}

/// Stores a sealed bid in the next free slot.
pub fn place_bid(auction: &mut AuctionState, bidder: Pubkey, encrypted_amount: [u8; 32]) -> (r:
    Result<(), AuctionError>)
    requires
        old(auction).wf(),
    ensures
        final(auction).wf(),
        match bid_error(*old(auction)) {
            Some(e) => r == Err::<(), AuctionError>(e) && *final(auction) == *old(auction),
            None => {
                &&& r is Ok
                &&& final(auction).bid_count == old(auction).bid_count + 1
                &&& final(auction).encrypted_bids@ == old(auction).encrypted_bids@.update(
                    old(auction).bid_count as int,
                    encrypted_amount,
                )
                &&& final(auction).bidder_keys@ == old(auction).bidder_keys@.push(bidder)
                &&& final(auction).authority == old(auction).authority
                &&& final(auction).is_open == old(auction).is_open
                &&& final(auction).max_bidders == old(auction).max_bidders
            },
        },
{
    if !auction.is_open {
        return Err(AuctionError::AuctionClosed);
    }
    if auction.bid_count >= auction.max_bidders {
        return Err(AuctionError::AuctionFull);
    }
    let idx = auction.bid_count as usize;
    auction.encrypted_bids.set(idx, encrypted_amount);
    auction.bidder_keys.push(bidder);
    auction.bid_count = auction.bid_count + 1;
    Ok(())
}

/// A slot-for-slot copy of `slots`.
fn copy_slots(slots: &Vec<[u8; 32]>) -> (r: Vec<[u8; 32]>)
    ensures
        r@ == slots@,
{
    let mut r: Vec<[u8; 32]> = Vec::new();
    let mut i: usize = 0;
    while i < slots.len()
        invariant
            i <= slots@.len(),
            r@ == slots@.subrange(0, i as int),
        decreases slots@.len() - i,
    {
        r.push(slots[i]);
        i = i + 1;
    }
    assert(slots@.subrange(0, slots@.len() as int) == slots@);
    r
}

/// Closes the auction for resolution and hands back every slot, the unused
/// ones holding the all-zero ciphertext.
pub fn begin_resolution(auction: &mut AuctionState) -> (r: Result<Vec<[u8; 32]>, AuctionError>)
    requires
        old(auction).wf(),
    ensures
        final(auction).wf(),
        match resolution_error(*old(auction)) {
            Some(e) => r == Err::<Vec<[u8; 32]>, AuctionError>(e) && *final(auction) == *old(
                auction,
            ),
            None => {
                &&& r matches Ok(snapshot) && snapshot@ == old(auction).encrypted_bids@
                &&& *final(auction) == old(auction).closed()
            },
        },
{
    if !auction.is_open {
        return Err(AuctionError::AuctionClosed);
    }
    if auction.bid_count < 2 {
        return Err(AuctionError::NotEnoughBids);
    }
    auction.is_open = false;
    Ok(copy_slots(&auction.encrypted_bids))
}

/// Why `resolve_auction` refuses a request at `offset`, if it does: the
/// auction's own refusal first, then an offset already issued.
pub open spec fn request_error(s: AuctionState, handles: Map<u64, HandleStatus>, offset: u64) -> Option<
    AuctionError,
> {
    match resolution_error(s) {
        Some(e) => Some(e),
        None => if handles.contains_key(offset) {
            Some(AuctionError::DuplicateOffset)
        } else {
            None
        },
    }
}

/// Closes the auction and dispatches the comparison of its slots as one
/// computation tagged `computation_offset`. Nothing changes when it is
/// refused.
pub fn resolve_auction(
    auction: &mut AuctionState,
    dispatcher: &mut Dispatcher,
    computation_offset: u64,
    pubkey: [u8; 32],
    nonce: u128,
) -> (r: Result<ArgumentList, AuctionError>)
    requires
        old(auction).wf(),
    ensures
        final(auction).wf(),
        match request_error(*old(auction), old(dispatcher).view(), computation_offset) {
            Some(e) => {
                &&& r matches Err(f) && f == e
                &&& *final(auction) == *old(auction)
                &&& final(dispatcher).view() == old(dispatcher).view()
            },
            None => {
                &&& r matches Ok(l) && list_args(l) == resolution_args(
                    pubkey,
                    nonce,
                    old(auction).encrypted_bids@,
                )
                &&& *final(auction) == old(auction).closed()
                &&& final(dispatcher).view() == old(dispatcher).view().insert(
                    computation_offset,
                    HandleStatus::Pending,
                )
            },
        },
{
    if !auction.is_open {
        return Err(AuctionError::AuctionClosed);
    }
    if auction.bid_count < 2 {
        return Err(AuctionError::NotEnoughBids);
    }
    if dispatcher.status(computation_offset).is_some() {
        return Err(AuctionError::DuplicateOffset);
    }
    let snapshot = match begin_resolution(auction) {
        Ok(s) => s,
        Err(e) => return Err(e),
    };
    dispatcher.request_resolution(&snapshot, computation_offset, pubkey, nonce)
}

/// The event that an authenticated output announces: the winner's slot from
/// the first field, the amount from the second.
pub open spec fn end_event(fields: [[u8; 32]; 2]) -> AuctionEndEvent {
    AuctionEndEvent {
        winner_idx: le_u64(fields@[0]@) as u8,
        amount: le_u64(fields@[1]@) as u64,
    }
}

/// What a callback at `offset` does to the handles and what it returns.
/// `output` holds the result's fields when the signed output authenticated,
/// and is `None` when it did not.
pub open spec fn callback_outcome(
    handles: Map<u64, HandleStatus>,
    offset: u64,
    output: Option<[[u8; 32]; 2]>,
) -> (Map<u64, HandleStatus>, Result<AuctionEndEvent, ErrorCode>) {
    if !handles.contains_key(offset) {
        (handles, Err(ErrorCode::UnknownComputation))
    } else if handles[offset] != HandleStatus::Pending {
        (handles, Err(ErrorCode::ComputationFinalized))
    } else {
        match output {
            None => (handles.insert(offset, HandleStatus::Aborted), Err(ErrorCode::AbortedComputation)),
            Some(fields) => (handles.insert(offset, HandleStatus::Verified), Ok(end_event(fields))),
        }
    }
}

/// Settles the computation at `computation_offset` from its output, which
/// is `None` when the signed output failed authentication against the
/// cluster and the computation. A handle is settled or aborted once; any
/// later callback for it is refused.
pub fn resolve_auction_callback(
    dispatcher: &mut Dispatcher,
    computation_offset: u64,
    output: Option<[[u8; 32]; 2]>,
) -> (r: Result<AuctionEndEvent, ErrorCode>)
    ensures
        (final(dispatcher).view(), r) == callback_outcome(
            old(dispatcher).view(),
            computation_offset,
            output,
        ),
{
    match dispatcher.status(computation_offset) {
        None => Err(ErrorCode::UnknownComputation),
        Some(HandleStatus::Pending) => match output {
            None => {
                dispatcher.finish(computation_offset, HandleStatus::Aborted);
                Err(ErrorCode::AbortedComputation)
            },
            Some(fields) => {
                let winner = read_le_u64(&fields[0]);
                let amount = read_le_u64(&fields[1]);
                dispatcher.finish(computation_offset, HandleStatus::Verified);
                Ok(AuctionEndEvent { winner_idx: winner as u8, amount })
            },
        },
        Some(_) => Err(ErrorCode::ComputationFinalized),
    }
}

/// Replay protection: a callback for a handle that was already verified or
/// aborted is refused, announces nothing and changes nothing.
pub proof fn lemma_finished_handle_rejects_callback(
    handles: Map<u64, HandleStatus>,
    offset: u64,
    output: Option<[[u8; 32]; 2]>,
)
    requires
        handles.contains_key(offset),
        handles[offset] != HandleStatus::Pending,
    ensures
        callback_outcome(handles, offset, output) == (
            handles,
            Err::<AuctionEndEvent, ErrorCode>(ErrorCode::ComputationFinalized),
        ),
{
}

/// A handle is consumed once: after any callback on a pending handle,
/// every further callback on it is refused and changes nothing.
pub proof fn lemma_callback_consumes_handle(
    handles: Map<u64, HandleStatus>,
    offset: u64,
    first: Option<[[u8; 32]; 2]>,
    second: Option<[[u8; 32]; 2]>,
)
    requires
        handles.contains_key(offset),
        handles[offset] == HandleStatus::Pending,
    ensures
        ({
            let after = callback_outcome(handles, offset, first).0;
            callback_outcome(after, offset, second) == (
                after,
                Err::<AuctionEndEvent, ErrorCode>(ErrorCode::ComputationFinalized),
            )
        }),
{
}

/// Resolution can be requested once: once it has succeeded on an auction,
/// asking again is refused as closed, at any offset.
pub proof fn lemma_resolution_at_most_once(
    s: AuctionState,
    handles: Map<u64, HandleStatus>,
    offset: u64,
)
    requires
        resolution_error(s) is None,
    ensures
        resolution_error(s.closed()) == Some(AuctionError::AuctionClosed),
        request_error(s.closed(), handles, offset) == Some(AuctionError::AuctionClosed),
{
}

/// A full auction takes no more bids: a bid on it is refused, as full while
/// the auction is open, and its slots stay as they were.
pub proof fn lemma_full_auction_refuses(s: AuctionState)
    requires
        s.wf(),
        s.bid_count == s.max_bidders,
    ensures
        bid_error(s) is Some,
        s.is_open ==> bid_error(s) == Some(AuctionError::AuctionFull),
{
}

} // verus!
