//! Building blocks for small desktop utilities: a bounded clipboard history,
//! the polling protocol that feeds it, and a work/break interval timer.

pub mod history;
pub mod tomato_clock;
pub mod watcher;
