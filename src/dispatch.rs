//! The computation dispatcher: the argument list handed to the confidential
//! backend, and the table of computation handles with their lifecycle
//! `Pending -> {Verified, Aborted}`.
use vstd::prelude::*;
use std::collections::HashMap;
use arcium_anchor::prelude::{ArgBuilder, ArgumentList};
use crate::arcbid::{AuctionError, MAX_SLOTS};

verus! {

broadcast use vstd::std_specs::hash::group_hash_axioms;

#[verifier::external_type_specification]
#[verifier::external_body]
pub struct ExArgBuilder(ArgBuilder);

#[verifier::external_type_specification]
#[verifier::external_body]
pub struct ExArgumentList(ArgumentList);

/// One argument of a computation request, as the circuit receives it.
#[derive(Clone, Copy, Debug)]
pub enum CircuitArg {
    X25519Pubkey([u8; 32]),
    PlaintextU128(u128),
    EncryptedU64([u8; 32]),
}

/// The arguments that a builder holds, in the order they were added.
pub uninterp spec fn builder_args(b: ArgBuilder) -> Seq<CircuitArg>;

/// The arguments of a built argument list, in order.
pub uninterp spec fn list_args(l: ArgumentList) -> Seq<CircuitArg>;

/// Relies on `ArgBuilder::new`: a builder with no arguments.
#[verifier::external_body]
fn new_builder() -> (b: ArgBuilder)
    ensures
        builder_args(b) == Seq::<CircuitArg>::empty(),
{
    ArgBuilder::new()
}

/// Relies on `ArgBuilder::x25519_pubkey`: appends the key. The builder
/// addresses its byte arrays with one byte, hence the bound.
#[verifier::external_body]
fn add_x25519_pubkey(b: ArgBuilder, key: [u8; 32]) -> (r: ArgBuilder)
    requires
        builder_args(b).len() < 256,
    ensures
        builder_args(r) == builder_args(b).push(CircuitArg::X25519Pubkey(key)),
{
    b.x25519_pubkey(key)
}

/// Relies on `ArgBuilder::plaintext_u128`: appends the value. The builder
/// addresses its 128-bit values with one byte, hence the bound.
#[verifier::external_body]
fn add_plaintext_u128(b: ArgBuilder, value: u128) -> (r: ArgBuilder)
    requires
        builder_args(b).len() < 256,
    ensures
        builder_args(r) == builder_args(b).push(CircuitArg::PlaintextU128(value)),
{
    b.plaintext_u128(value)
}

/// Relies on `ArgBuilder::encrypted_u64`: appends the ciphertext. The
/// builder addresses its byte arrays with one byte, hence the bound.
#[verifier::external_body]
fn add_encrypted_u64(b: ArgBuilder, ciphertext: [u8; 32]) -> (r: ArgBuilder)
    requires
        builder_args(b).len() < 256,
    ensures
        builder_args(r) == builder_args(b).push(CircuitArg::EncryptedU64(ciphertext)),
{
    b.encrypted_u64(ciphertext)
}

/// Relies on `ArgBuilder::build`: the list holds the builder's arguments.
#[verifier::external_body]
fn build_list(b: ArgBuilder) -> (l: ArgumentList)
    ensures
        list_args(l) == builder_args(b),
{
    b.build()
}

/// The arguments of a resolution request: the requester's public key, the
/// nonce, then each slot's ciphertext in slot order.
pub open spec fn resolution_args(pubkey: [u8; 32], nonce: u128, slots: Seq<[u8; 32]>) -> Seq<
    CircuitArg,
> {
    seq![CircuitArg::X25519Pubkey(pubkey), CircuitArg::PlaintextU128(nonce)] + slots.map_values(
        |c: [u8; 32]| CircuitArg::EncryptedU64(c),
    )
}

/// Builds the argument list of a resolution request.
pub fn resolution_arguments(slots: &Vec<[u8; 32]>, pubkey: [u8; 32], nonce: u128) -> (l:
    ArgumentList)
    requires
        slots@.len() <= MAX_SLOTS,
    ensures
        list_args(l) == resolution_args(pubkey, nonce, slots@),
{
    let b = new_builder();
    let b = add_x25519_pubkey(b, pubkey);
    let mut b = add_plaintext_u128(b, nonce);
    let mut i: usize = 0;
    while i < slots.len()
        invariant
            i <= slots@.len(),
            slots@.len() <= MAX_SLOTS,
            builder_args(b) == resolution_args(pubkey, nonce, slots@.subrange(0, i as int)),
        decreases slots@.len() - i,
    {
        proof {
            assert(slots@.subrange(0, i + 1) == slots@.subrange(0, i as int).push(slots@[i as int]));
            assert(resolution_args(pubkey, nonce, slots@.subrange(0, i + 1)) == resolution_args(
                pubkey,
                nonce,
                slots@.subrange(0, i as int),
            ).push(CircuitArg::EncryptedU64(slots@[i as int])));
        }
        b = add_encrypted_u64(b, slots[i]);
        i = i + 1;
    }
    assert(slots@.subrange(0, slots@.len() as int) == slots@);
    build_list(b)
}

/// Where a computation handle stands.
#[derive(Clone, Copy, Debug, PartialEq, Eq, Structural)]
pub enum HandleStatus {
    Pending,
    Verified,
    Aborted,
}

/// The computation handles issued so far, keyed by their offset.
pub struct Dispatcher {
    pub handles: HashMap<u64, HandleStatus>,
}

impl Dispatcher {
    /// The handles, as a map from offset to status.
    pub open spec fn view(&self) -> Map<u64, HandleStatus> {
        self.handles@
    }

    /// A dispatcher that has issued nothing.
    pub fn new() -> (d: Dispatcher)
        ensures
            d.view() == Map::<u64, HandleStatus>::empty(),
    {
        Dispatcher { handles: HashMap::new() }
    }

    /// Where the handle at `offset` stands, if it was issued.
    pub fn status(&self, offset: u64) -> (r: Option<HandleStatus>)
        ensures
            r == (if self.view().contains_key(offset) {
                Some(self.view()[offset])
            } else {
                None
            }),
    {
        match self.handles.get(&offset) {
            Some(s) => Some(*s),
            None => None,
        }
    }

    /// Issues a handle for a resolution of `slots` at `offset` and builds
    /// the request's argument list. An offset that was issued before is
    /// refused, whatever its handle's status.
    pub fn request_resolution(
        &mut self,
        slots: &Vec<[u8; 32]>,
        offset: u64,
        pubkey: [u8; 32],
        nonce: u128,
    ) -> (r: Result<ArgumentList, AuctionError>)
        requires
            slots@.len() <= MAX_SLOTS,
        ensures
            old(self).view().contains_key(offset) ==> {
                &&& r matches Err(AuctionError::DuplicateOffset)
                &&& final(self).view() == old(self).view()
            },
            !old(self).view().contains_key(offset) ==> {
                &&& r matches Ok(l) && list_args(l) == resolution_args(pubkey, nonce, slots@)
                &&& final(self).view() == old(self).view().insert(offset, HandleStatus::Pending)
            },
    {
        if self.handles.contains_key(&offset) {
            return Err(AuctionError::DuplicateOffset);
        }
        let l = resolution_arguments(slots, pubkey, nonce);
        self.handles.insert(offset, HandleStatus::Pending);
        Ok(l)
    }

    /// Moves the pending handle at `offset` to the terminal `status`.
    pub fn finish(&mut self, offset: u64, status: HandleStatus)
        requires
            old(self).view().contains_key(offset),
            old(self).view()[offset] == HandleStatus::Pending,
            status != HandleStatus::Pending,
        ensures
            final(self).view() == old(self).view().insert(offset, status),
    {
        self.handles.insert(offset, status);
    }
}

} // verus!
