pub mod asset_config;
pub mod spoke_state;
pub mod user_deposit;

pub use asset_config::AssetConfig;
pub use spoke_state::SpokeState;
pub use spoke_state::MAX_SUPPORTED_ASSETS;
pub use user_deposit::UserDeposit;
