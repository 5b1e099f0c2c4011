//! Startup supervision for a desktop application whose real work is done by a
//! separately packaged backend process.
//!
//! The library holds the decision logic of that launcher: ranked candidate-path
//! resolution, idempotent staging of a packaged resource, backend entry-point
//! discovery and classification, spawn planning (working directory, invocation,
//! log destinations, process record), and the non-fatal launch state machine.
//! All filesystem probing, copying, and process creation happen outside the
//! library, which works on plain path values and existence facts.

pub mod paths;
pub mod resolver;
pub mod stager;
pub mod locator;
pub mod supervisor;
pub mod orchestrator;
