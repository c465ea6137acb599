//! A donation ledger with its collaborating registries: an NGO directory,
//! an escrow vault, an evidence log, an NFT issuer and a token manager.
//!
//! Every registry is a plain state machine. Operations either succeed and
//! apply all of their effects, or fail with an [`Error`] and leave every
//! registry they touched exactly as it was.
mod types;
mod ngo_verification;
mod impact_escrow;
mod donation_registry;
mod evidence;
mod nft_minting;
mod token_manager;

pub use types::{Address, Error, Event, Status};
pub use ngo_verification::{DirectoryModel, NGOVerification, NGO};
pub use impact_escrow::{EscrowModel, EscrowStatus, ImpactEscrow};
pub use donation_registry::{
    ids_of_ngo, lemma_ids_of_ngo_len, lemma_ids_of_ngo_same, lemma_record_ids_increase, lemma_update_consistent,
    lemma_verify_twice, Config, Donation, DonationRegistry, RegistryModel,
};
pub use evidence::{Evidence, EvidenceContract, EvidenceKey, EvidenceModel};
pub use nft_minting::{lemma_owned_count_bound, owned_count, MintingModel, NFTMinting, NFT};
pub use token_manager::TokenManager;
