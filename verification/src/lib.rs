//! Delegated-credential authorization and the publishing workflows that
//! depend on it.
//!
//! A client proves that it may act for an identity by presenting a chain of
//! signed delegations. The library derives the acting principal from such a
//! credential, compares it with the owner of the post in question, and decides,
//! step by step, which collaborator is called next while a post is finalized
//! or published. The collaborators themselves (storage, registry, events,
//! notifications) live outside: the workflows are written as transitions from
//! a state and an observed outcome to the next state and the next action.

pub mod authorization;
pub mod delegation;
pub mod error;
pub mod events;
pub mod finalize;
pub mod metadata;
pub mod notification;
pub mod post;
pub mod principal;
pub mod publish;
pub mod response;
pub mod storj;
pub mod upload_url;
