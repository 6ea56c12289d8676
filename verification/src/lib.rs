//! Restricted Transactional Memory (RTM): the status word that a transactional
//! region hands back when it ends, and the life cycle of such a region.
//!
//! [`status`] reads and builds the 32-bit status word. [`region`] is the state
//! machine that a thread moves through as it enters, commits and abandons
//! regions. The instructions themselves are issued by the code around this
//! library; what they report is handed in as plain values.

pub mod region;
pub mod status;
