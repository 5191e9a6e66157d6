//! Core logic of the SHMTU service monitor: request validation and response
//! decisions of the HTTP API, the poller's merge of remote status reports,
//! dashboard aggregation, configuration parsing and the SQL texts whose shape
//! depends on the request.
pub mod config;
pub mod db;
pub mod handlers;
pub mod models;
pub mod services;
pub mod text;
