//! Boundary adapter between a one-request, one-response invocation and a
//! calculation engine that reports its results as several named artifacts.
//!
//! Two mechanisms make up the core:
//!
//! * [`output`] lets the engine write any number of named artifacts while
//!   everything it writes is gathered, in order, into one text buffer that
//!   can become a single response body; [`session`] states what such a
//!   buffer holds after any sequence of writes;
//! * [`outcome`] and [`response`] turn the closed set of things an
//!   invocation can end in into a status code and a JSON envelope, which
//!   [`meta`] signs with the versions that produced it.
//!
//! [`handler`] sequences one invocation and [`correlation`] finds the
//! request identifier that the envelope carries. [`json`], [`text`] and
//! [`shared`] hold what the others are built from.

pub mod correlation;
pub mod handler;
pub mod json;
pub mod meta;
pub mod outcome;
pub mod output;
pub mod response;
pub mod session;
pub mod shared;
pub mod text;
