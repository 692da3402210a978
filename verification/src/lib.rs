//! Locates an external command-line tool across heterogeneous installation
//! layouts: per-user install, application-bundle-relative locations,
//! development checkout, executable-sibling and ancestor directories,
//! system-wide locations, and finally the executable search path.
//!
//! The resolver itself is pure: it computes an ordered candidate list from an
//! immutable snapshot of the environment, and decides on the outcome from the
//! existence flags that the caller probed. The caller performs the actual
//! filesystem checks and hands the results back as plain values.

pub mod candidates;
pub mod catalog;
pub mod context;
pub mod diagnostic;
pub mod invoke;
pub mod lookup;
pub mod pathstr;
pub mod selection;
