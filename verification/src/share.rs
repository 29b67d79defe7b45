//! Sharing and reconstruction alone, without the commitments.

pub use crate::secret_sharing::{generate_shares, reconstruct_secret};
