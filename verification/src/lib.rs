//! The gateway through which analytics events enter: what an incoming payload is,
//! whether it is acceptable, where it goes and under which identifier, and how a batch
//! reports on its items.
//!
//! A payload arrives as untyped JSON (`json`). It is read as one of five kinds of event
//! (`models`, `shape`), held against the table of length bounds (`limits`, `validate`),
//! given its identifier (`identity`) and its channel (`route`). `pipeline` puts these
//! together for one payload, and `batch` for a list of them; `request` reads a body
//! that may be either. Nothing here talks to the network or to the broker: the library
//! says what is to be published and what to answer, and the caller does it.

#![allow(non_snake_case)]

pub mod batch;
pub mod health;
pub mod identity;
pub mod json;
pub mod limits;
pub mod models;
pub mod pipeline;
pub mod request;
pub mod route;
pub mod shape;
pub mod text;
pub mod validate;
