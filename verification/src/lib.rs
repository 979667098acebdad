//! An in-memory columnar data source: a table of fixed schema, held in typed
//! columns, that a query engine can scan under a projection and read back
//! as a single record batch.
//!
//! The table is built once, from rows ([`store`], [`source`]), and read any
//! number of times: a scan is planned over the schema alone ([`plan`]), and
//! its execution hands out one batch of shared columns ([`batch`],
//! [`stream`]). What a scan returns is stated over mathematical tables
//! ([`table`]), and what holds of every table and projection is proved in
//! [`laws`].
//!
//! Around this stand the customer table and its loader ([`customer`],
//! [`decode`], [`text`]), the queries asked of it ([`queries`]), addresses
//! ([`address`]), and the state of the viewer ([`viewer`]).

pub mod address;
pub mod batch;
pub mod column;
pub mod customer;
pub mod decode;
pub mod error;
pub mod laws;
pub mod plan;
pub mod queries;
pub mod schema;
pub mod source;
pub mod store;
pub mod stream;
pub mod table;
pub mod text;
pub mod viewer;
