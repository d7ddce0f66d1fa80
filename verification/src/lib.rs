//! City records and dataset-URL resolution for a remote object store.
//!
//! A [`city::City`] is one entry of a tabular city listing; [`loader`] turns
//! the text of such a table into a sequence of records. A
//! [`dataset::Dataset`] is one of the dataset varieties the store offers, and
//! [`resolve`] derives the store URL of a dataset archive from a city's
//! identity fields.

pub mod city;
pub mod dataset;
pub mod error;
pub mod loader;
pub mod resolve;
pub mod text;
