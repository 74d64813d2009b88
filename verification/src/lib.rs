pub mod relay;
pub mod signer;
