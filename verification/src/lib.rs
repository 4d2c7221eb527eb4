//! Verified core of an iterative generate/critique/fix/test loop that turns a
//! natural-language coding problem into a program with the help of a
//! chat-completion service and an external compiler and test runner.
//!
//! The crate models the service's streamed, sometimes malformed JSON output,
//! normalizes it into well-typed results under retry and anomaly policies, and
//! drives a bounded convergence loop over generator, critic, and fixer
//! agents. All network, process, and terminal plumbing lives outside this
//! crate; the functions here work on plain values and carry contracts.

pub mod chatter_json;
pub mod coder;
pub mod compiler;
pub mod critic;
pub mod errors;
pub mod fixer;
pub mod json;
pub mod orchestrator;
pub mod progress_bar;
pub mod strutil;
pub mod tester;
