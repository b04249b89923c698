//! The orchestration of whole flows, one module for each grant.

pub mod implicit_retriever;
