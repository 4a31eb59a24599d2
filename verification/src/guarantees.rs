//! What is promised of requests that run alone against the tables.

pub mod access;
pub mod completion;
pub mod creation;
pub mod documents;
pub mod envelopes;
pub mod failures;
pub mod groups;
pub mod listing;
pub mod membership;
pub mod reading;
pub mod recall;
pub mod refusals;
pub mod rows;
pub mod rules;
pub mod sending;
pub mod soundness;
pub mod telling;
mod words;
