//! The rules of a local agents service: what a request may ask for, what the
//! durable records say, and what a lost and replaced backend does to them.
//!
//! Every operation works on a [`store::Store`], which holds the saved rows and a
//! list of what is left to be written out and told. What each operation does is
//! stated over the store's view; what holds of all of them together stands in
//! [`soundness`], [`journal`], [`steps`] and the modules of laws: [`input_laws`] on
//! what clients create and send, [`agent_laws`] and [`config_laws`] on how agents are
//! configured, [`exchange_laws`] on what the backend is asked for, [`turn_laws`] and
//! [`item_laws`] on what is recorded of what it tells, [`call_laws`] and
//! [`answer_laws`] on functions that the application is to run, [`page_laws`] on
//! lists, [`session_laws`] on sessions and lost connections, [`route_laws`] on
//! requests and the backend's history, and [`worker_laws`] on the backend's worker.
pub mod text;
pub mod json;
pub mod outside;
pub mod model;
pub mod error;
pub mod resources;
pub mod table;
pub mod store;
pub mod sweep;
pub mod capabilities;
pub mod contract;
pub mod projection;
pub mod records;
pub mod pages;
pub mod actions;
pub mod disconnect;
pub mod reconcile;
pub mod sessions;
pub mod routes;
pub mod backend;
pub mod runtime;
pub mod names;
pub mod soundness;
pub mod journal;
pub mod steps;
pub mod session_laws;
pub mod turn_laws;
pub mod item_laws;
pub mod page_laws;
pub mod call_laws;
pub mod answer_laws;
pub mod exchange_laws;
pub mod input_laws;
pub mod config_laws;
pub mod agent_laws;
pub mod route_laws;
pub mod worker_laws;
