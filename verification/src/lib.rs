//! A small lookup service core: given the name of a creature species, fetch
//! its description from an upstream provider, pick the most recent English
//! entry, collapse its whitespace, and run it through a style-translation
//! service.
//!
//! This crate holds the verified logic: name validation, description
//! selection and normalization, classification of upstream responses, the
//! request orchestration pipeline, and the mapping from unified errors to
//! HTTP status codes and messages. The unverified transport layer (HTTP
//! server and clients) lives outside and drives these functions.

pub mod endpoints;
pub mod fakes;
pub mod model;
pub mod poke_api;
pub mod services;
pub mod shakespeare_api;
pub mod text;
