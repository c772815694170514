//! The entities of the service, the rows under which the store keeps them, and
//! the inputs from which they are made.

pub mod creation_information;
pub mod database;
pub mod graphql;
pub mod list;
pub mod task;
pub mod user;
pub mod utilities;

pub use creation_information::CreationInformation;
pub use list::List;
pub use task::{Task, TaskPriority};
pub use user::User;
