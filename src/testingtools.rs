//! Runners, indexes and parsers with fixed answers, and wrappers that count calls, for
//! driving the pipeline's workers without external tools.
pub mod check_runner;
pub mod coverage_runner;
pub mod output_parser;
pub mod test_runner;
pub mod tests_index;
