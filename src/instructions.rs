//! One handler per channel operation. Each checks every condition before it
//! changes anything, so a rejected operation leaves its accounts as they were.
pub mod close_channel;
pub mod force_close_channel;
pub mod open_channel;
pub mod update_channel;
