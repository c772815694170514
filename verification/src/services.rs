//! The operations of the service. Each is a protocol between the service and
//! the store: validate, check that what is referred to exists, write, and read
//! back what was written.

pub mod creation_information_service;
pub mod list_service;
pub mod memory;
pub mod operation;
pub mod outcomes;
pub mod protocol;
pub mod runs;
pub mod task_service;
pub mod user_service;
pub mod utilities;

pub use creation_information_service::CreationInformationService;
pub use list_service::ListService;
pub use task_service::TaskService;
pub use user_service::UserService;
