//! Decisions for running one task per item at once: which task to poll next, when the
//! whole operation has finished, and how finished reductions are paired up. Running the
//! tasks themselves is left to the caller.
pub mod pass;
pub mod reduce;
