pub mod admin;
pub mod deposit;
pub mod initialize;
pub mod liquidate;
pub mod process_hub_message;
pub mod register_asset;
pub mod update_oracle;
pub mod withdraw;

pub use admin::AdminAction;
pub use deposit::Deposit;
pub use initialize::InitializeSpoke;
pub use liquidate::Liquidate;
pub use process_hub_message::ApplyBorrowApproval;
pub use process_hub_message::ProcessHubMessage;
pub use register_asset::RegisterAsset;
pub use update_oracle::UpdateOracle;
pub use withdraw::Withdraw;
