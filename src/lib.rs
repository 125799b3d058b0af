//! Sealed-bid auction settled by a confidential tournament circuit.
//!
//! The crate is split into the comparison circuit (`blind_auction`), the
//! little-endian decoding of settled results (`le_bytes`), the table of
//! computation handles and the backend's argument list (`dispatch`), and the
//! auction's instructions (`arcbid`).
pub mod arcbid;
pub mod blind_auction;
pub mod dispatch;
pub mod le_bytes;
