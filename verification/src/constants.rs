//! Fixed texts and numbers of the service.

use vstd::prelude::*;

verus! {

/// The key under which an error's cause is handed to the caller.
pub const ERROR_DETAILS_KEY: &'static str = "error_details";

/// The message of a failure that is the service's own fault.
pub const INTERNAL_ERROR: &'static str = "Internal error";

/// The message of a failed creation of a user.
pub const USER_NOT_CREATED_ERROR_MESSAGE: &'static str = "User not created";

/// The message of a failed creation of an audit record.
pub const CREATION_INFORMATION_NOT_CREATED_ERROR_MESSAGE: &'static str =
    "Creation information not created";

/// The message of a failed update of an audit record.
pub const CREATION_INFORMATION_NOT_UPDATED_ERROR_MESSAGE: &'static str =
    "Creation information not updated";

/// The message of a failed creation of a list.
pub const LIST_NOT_CREATED_ERROR_MESSAGE: &'static str = "List not created";

/// The message of a failed update of a list.
pub const LIST_NOT_UPDATED_ERROR_MESSAGE: &'static str = "List not updated";

/// The message of a failed creation of a task.
pub const TASK_NOT_CREATED_ERROR_MESSAGE: &'static str = "Task not created";

/// The message of a failed addition of a task to a list.
pub const TASK_NOT_ADDED_ERROR_MESSAGE: &'static str = "Task not added";

/// The number under which a high priority is stored.
pub const HIGH_TASK_PRIORITY: i32 = 2;

/// The number under which a normal priority is stored.
pub const MEDIUM_TASK_PRIORITY: i32 = 1;

/// The number under which a low priority is stored.
pub const LOW_TASK_PRIORITY: i32 = 0;

} // verus!
