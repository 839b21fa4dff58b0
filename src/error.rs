use vstd::prelude::*;

verus! {

/// The ways extraction fails, per file or per function.
#[derive(Debug, Clone, Copy, PartialEq, Eq, Structural)]
pub enum ExtractError {
    /// A file system read, write, create or remove failed.
    IoError,
    /// The compiler or disassembler exited with failure or wrote nothing.
    ToolInvocationError,
    /// The syntax tree document is malformed.
    ParseError,
    /// A function's source range is inverted or runs past the source text.
    RangeOutOfBounds,
    /// The disassembly holds no instructions for a function's symbol.
    FunctionNotEmitted,
}

} // verus!
