//! Turns a plain record definition into a concurrency-safe one: every field
//! becomes a shared, lock-protected cell, and per-field accessors are
//! generated alongside a constructor taking the original unwrapped values.
//!
//! Two components:
//! - [`member::AtomicMember`], the shared, mutually-exclusive container that
//!   the generated record stores one of per field;
//! - the record transformer ([`transform::atomic_struct`]), which maps a
//!   structural description of a record ([`shape::RecordShape`]) to the full
//!   description of the generated type ([`generated::GeneratedRecord`]).

pub mod generated;
pub mod laws;
pub mod member;
pub mod shape;
pub mod transform;
