//! Builds a corpus of function examples: each pairs the source text of a
//! function definition with the disassembled instructions compiled from it.
//!
//! The library holds the logic: the syntax tree model and its traversal, the
//! resolution of a source range to bytes, the segmentation of disassembly into
//! per-symbol blocks, the per-function extraction, and the per-file state machine.
//! Running the compiler and disassembler, and the file system, belong to the caller.

mod tree;
mod error;
mod location;
mod assembly;
mod extract;
mod laws;
mod pipeline;
mod write_adapter;

pub use tree::{
    children_preorder, preorder, visit, Data, DoRecurse, ExpansionOrigin, Node, SourceLocation,
    SourceRange, Visitor,
};
pub use error::ExtractError;
pub use location::{range_fits, range_slice, resolve};
pub use assembly::{
    assembly_block, find_block, first_header, first_newline_at, header_at,
    header_symbol, is_lower_hex_digit, line_views, opt_chars, run_end, strip_carriage_return,
    text_lines, HeaderMatcher, HEADER_PATTERN,
};
pub use extract::{
    descends_into, find_functions, function_sites, is_function_site, locally_defined, site_of,
    site_views, sites_in, FunctionFinder, FunctionSite, example_outcome, expected_outcomes,
    extract_examples, extract_from_lines, extract_function, outcome_view, outcome_views,
    FunctionExample, FunctionOutcome,
};
pub use laws::{
    emitted_count, examples_at_most_functions, example_source_is_exact_span, range_boundaries,
    rerun_gives_same_outcomes,
};
pub use pipeline::{
    advance, counts_as_processed, file_fails_only_on_fatal_stage, is_fatal_stage, is_terminal,
    run_stages, stage_after, FileStage, Transition,
};
pub use write_adapter::{lines_text, newline_terminated, write_lines, IoWrite2FmtWrite, IoWrite2FmtWriteCatch};
