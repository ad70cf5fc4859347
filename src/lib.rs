pub mod laws;
pub mod manager;
pub mod model;
pub mod principal;
pub mod records;

pub use manager::LaunchManager;
pub use model::{LaunchView, Operation};
pub use principal::Principal;
pub use records::{Campaign, DataKey, LaunchError, UserPoints};
