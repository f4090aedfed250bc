//! Daily check-in against a game community's event API: decoding of the
//! uniform response envelope, discovery of the campaign identifier, and the
//! three-call check-in session as a state machine.

pub mod act_id;
pub mod api;
pub mod scripts;
pub mod search;
pub mod signer;
pub mod transport;
