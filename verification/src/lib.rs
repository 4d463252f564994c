//! A ticket tracker.
//!
//! Tickets live in a table ([`repositories`]). A service ([`services`])
//! stores, reads, changes and removes them and says which of them a listing
//! shows. What it hands out is never the stored ticket but what a reader is
//! shown of it ([`views`]): its age in whole days, the priority that follows
//! from the age, and a colour for its status. The five requests, and the
//! status with which each outcome is answered, are in [`controllers`].
//!
//! Every rule takes the instant at which it applies as an argument
//! ([`clock`]); only the functions that serve a request read the system
//! clock. Likewise the functions that say what follows from an outcome of the
//! store take that outcome as an argument, so that they serve a store of any
//! kind; [`repositories::TicketRepository`] is a table in memory, on which
//! the whole is proved from request to reply.
//!
//! [`laws`] states what holds of the tracker as a whole.

pub mod clock;
pub mod controllers;
pub mod laws;
pub mod models;
pub mod repositories;
pub mod services;
pub mod text;
pub mod views;
