//! A continuous-feedback pipeline for a source repository: change filtering, stage
//! transitions, the tests-set skip policy and the coverage report grammar.
pub mod text;
pub mod result;
pub mod entities;
pub mod bus;
pub mod state;
pub mod coverage_parser;
pub mod ignored_path;
pub mod watcher;
pub mod runners;
pub mod tests_index;
pub mod shells;
pub mod testingtools;
