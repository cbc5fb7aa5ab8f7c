//! Exit, Voice and loyalty: how a member responds when an organization they
//! belong to declines.
//!
//! A [`Membership`] ties a member to the organization they currently hold
//! and to a pool of alternatives. Each evaluation cycle yields at most one
//! response: raising the organization's quality from within (Voice), leaving
//! it (Exit), or doing nothing.

pub mod laws;
pub mod member;
pub mod membership;
pub mod org;

pub use crate::member::Member;
pub use crate::membership::{Membership, MembershipModel};
pub use crate::org::{Limiters, Options, Org, OrgModel};
