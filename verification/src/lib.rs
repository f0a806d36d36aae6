//! Policy engine of a smart-contract wallet with a daily spending cap, a
//! recipient whitelist, an emergency freeze held by a recovery key, and
//! rotation of that recovery key.
//!
//! The wallet's persistent state is modelled by [`wallet::SafeWallet`], one
//! optional field per storage key. Each entry point decides, from that state
//! and its arguments, which signatures the call needs, whether it fails, and
//! what the state becomes; the host that runs the contract performs the
//! signature checks, the storage writes and the token payment it describes.

pub mod account;
pub mod wallet;
pub mod laws;
