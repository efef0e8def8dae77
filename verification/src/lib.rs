pub mod counter;
pub mod filter;
pub mod handler;
pub mod logging;
pub mod timeout;
