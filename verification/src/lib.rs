//! Seeding a search index from a gazetteer.
//!
//! A gazetteer is a table of the world's places, one row each. This library
//! holds what a seeding run decides and computes:
//!
//! - [`admin`] loads the two tables that name administrative regions;
//! - [`table`] reads a tab-separated table record by record;
//! - [`schema`] and [`geonames`] decode a row of the gazetteer into a
//!   [`Location`] and make the document that the index gets for it;
//! - [`pipeline`] is the run itself as a state machine: it sets the index
//!   up, gathers documents into batches, and gives up on the first failure;
//! - [`laws`] and [`index`] state what holds of every run.
//!
//! Beside these stand [`metadata`] and [`deploy`], with the few decisions of
//! describing a project and putting a built site on its server.
//!
//! The library reads no file and speaks to no server. Its caller hands it
//! bytes, rows and replies, and carries out the actions that it names.
//!
//! Every function is proved against its contract, but for the few that call
//! into another crate: the contract of such a function is taken on trust,
//! and its documentation says what is taken.

pub mod admin;
pub mod coordinate;
pub mod date;
pub mod deploy;
pub mod geonames;
pub mod index;
pub mod laws;
pub mod lookup;
pub mod metadata;
pub mod pipeline;
pub mod reply;
pub mod schema;
pub mod table;
pub mod text;

pub use admin::{load_admin_files, Admin1Data, Admin2Data};
pub use geonames::Location;
