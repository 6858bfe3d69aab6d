mod account_index;
pub mod laws;
pub mod record;
pub mod store;

pub use record::{Error, Error2, Role, User, UserView};
pub use store::AdvCases;
