//! A typed event-routing and dispatch core.
//!
//! Events enter through a [`dispatcher::Dispatcher`], which scans an ordered,
//! immutable routing table ([`demux::Demux`]) and hands each event to the
//! first service that claims it.  Services are built from composable
//! predicates ([`guard::Guard`]) and bidirectional partial projections
//! ([`parser::Parser`] together with [`parser::RecombineFrom`]) that narrow a
//! broad event into the sub-shape a handler consumes and reconstruct the
//! original event, without loss, whenever a narrowing or its handler
//! declines.  Events that no service claims, and handler failures, are
//! funnelled to a single terminal error sink ([`error_handler::ErrorHandler`]),
//! exactly once per event.

pub mod outcome;

pub mod guard;

pub mod handler;

pub mod parser;

pub mod demux;

pub mod error_handler;

pub mod dispatcher;

pub mod types;

pub mod service;

pub mod update_parser;

pub mod updates;

pub mod messages;
