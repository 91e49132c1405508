//! Shared gift lists. Users belong to lists; each member of a list keeps
//! gifts on it that they wish for, and the other members claim the gifts
//! they mean to give.
//!
//! The store holds five tables: users, lists, memberships, gifts, and the
//! rows that place gifts on lists. `tables` says what every query and every
//! statement means on them, `db` is the store itself, and `store_laws`
//! proves what the store keeps true. On top of the store stand the two
//! engines: `claim`, for claiming a gift and releasing it, and `reconcile`,
//! for replacing a member's whole gift list by a submitted one, with its
//! laws in `reconcile_laws`. `webserver`, `pages` and `members` are what the
//! site does with a request; `email` composes invitations; `ident` and
//! `token` make identifiers and login tokens.

pub mod claim;
pub mod data;
pub mod db;
pub mod email;
pub mod failure;
pub mod ident;
pub mod members;
pub mod pages;
pub mod reconcile;
pub mod reconcile_laws;
pub mod seqs;
pub mod store_laws;
pub mod tables;
pub mod token;
pub mod webserver;
