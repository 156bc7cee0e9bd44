//! The compositor reactor: it reconciles embedder input, content-pipeline
//! messages and frame completions of the rendering backend into an ordered
//! stream of effects, and tracks the state of every viewport and pipeline.
//!
//! The library performs no input or output. Every entry point takes what was
//! observed outside as plain values and appends the effects that the caller
//! has to perform, in order, to a list. Real quantities (zoom factors,
//! scroll offsets, positions) are held in fixed point, in millionths.
//!
//! - `units` holds the fixed-point numbers and the geometry built from them,
//!   `search` finds the first element of a sequence that has a property;
//! - `msg` the identifiers of pipelines, documents and frames;
//! - `windowing` what the embedder tells the compositor, `effects` what the
//!   compositor asks of the world;
//! - `scroll` merges pending scroll and zoom input, `touch` tells taps, pans
//!   and pinches apart;
//! - `area` is one viewport, `pipeline` the table of pipelines, and
//!   `compositor` the compositor itself;
//! - `host`, `basedir`, `platform` and `vslogger` hold what the embedding
//!   glue decides.

pub mod units;
pub mod search;
pub mod msg;
pub mod windowing;
pub mod effects;
pub mod scroll;
pub mod touch;
pub mod pipeline;
pub mod area;
pub mod compositor;
pub mod host;
pub mod basedir;
pub mod platform;
pub mod vslogger;
