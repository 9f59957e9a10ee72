//! Tag-indexed dispatch of the "is the first of two values smaller?" operation.
//!
//! A consumer type implements [`capability::BasicHasTwoValues`] (and optionally
//! [`capability::StoresValueDifference`]), names one optimization tag in its
//! [`dispatch::ImprovedHtv`] impl, and thereby inherits the matching strategy of
//! the default implementation family, unless it supplies its own body.
pub mod capability;
pub mod dispatch;
pub mod holders;
