//! The records that the crawler reads and writes.

pub mod cursor_model;
pub mod object_id;
pub mod program_model;
pub mod program_queue_model;
pub mod queue_model;
pub mod transaction_model;
