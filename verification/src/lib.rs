//! Reader for IEC 61850 substation configuration (SCL) documents.
//!
//! The crate turns one ICD or CID document into a typed configuration tree
//! for a single device: communication addresses, logical devices and
//! nodes, data type templates, data sets and control blocks.
//!
//! A document is taken as a run of tags and texts. Each tag is looked up in
//! the table of the elements that may stand at its place, counted, and
//! handed to the handler of its element, which adds to the tree. Only the
//! device and the access point that the caller names are read in full.
//!
//! Every type has a mathematical view, and every function is specified
//! over those views and proved against its specification.
//!
//! - [`xml`] reads a document from its text, [`engine`] from its events.
//! - [`model`] holds the tree, [`context`] the state of a walk, [`table`]
//!   the element tables.
//! - [`root`], [`comm`], [`lnode`], [`control`], [`sampled`], [`values`],
//!   [`templates`] and [`services`] hold the handlers, [`dispatch`] finds
//!   them by name.
//! - [`validate`], [`bitstring`], [`flatname`], [`text`] and [`utils`] hold
//!   what the handlers convert and check with.
//! - [`laws`] holds what is proved of the reader as a whole.

pub mod bitstring;
pub mod comm;
pub mod consts;
pub mod context;
pub mod control;
pub mod cursor;
pub mod dispatch;
pub mod engine;
pub mod error;
pub mod flatname;
pub mod laws;
pub mod lnode;
pub mod model;
pub mod paths;
pub mod root;
pub mod sampled;
pub mod services;
pub mod table;
pub mod templates;
pub mod text;
pub mod utils;
pub mod validate;
pub mod values;
pub mod xml;
