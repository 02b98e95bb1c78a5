pub mod codec;
pub mod messages;



pub use messages::HubToSpokeMessage;
pub use messages::SpokeToHubMessage;
