use vstd::prelude::*;

use crate::error::ExtractError;

verus! {

/// Where the processing of one input file stands.
#[derive(Debug, Clone, Copy, PartialEq, Eq, Structural)]
pub enum FileStage {
    /// Create the file's output directory.
    Prepare,
    /// Run the disassembler and the compiler's tree dump.
    Invoke,
    /// Parse the tree dump.
    Load,
    /// Extract and write each function.
    Extract,
    /// Remove the temporary dumps.
    Cleanup,
    /// Done; the output directory stays and the file counts as processed.
    Succeeded,
    /// Done; the output directory is gone and the file does not count.
    Failed,
}

/// What the caller does after a stage has been performed.
#[derive(Debug, Clone, Copy, PartialEq, Eq, Structural)]
pub struct Transition {
    pub next: FileStage,
    /// Delete the file's whole output directory.
    pub remove_output_dir: bool,
    /// Report the stage's error.
    pub log_error: bool,
}

/// A failure at this stage abandons the whole file.
pub open spec fn is_fatal_stage(stage: FileStage) -> bool {
    stage == FileStage::Prepare || stage == FileStage::Invoke || stage == FileStage::Load
}

pub open spec fn is_terminal(stage: FileStage) -> bool {
    stage == FileStage::Succeeded || stage == FileStage::Failed
}

/// The stage that follows `stage` once it has been performed with `outcome`.
pub open spec fn stage_after(stage: FileStage, outcome: Result<(), ExtractError>) -> FileStage {
    match stage {
        FileStage::Prepare => if outcome is Ok {
            FileStage::Invoke
        } else {
            FileStage::Failed
        },
        FileStage::Invoke => if outcome is Ok {
            FileStage::Load
        } else {
            FileStage::Failed
        },
        FileStage::Load => if outcome is Ok {
            FileStage::Extract
        } else {
            FileStage::Failed
        },
        FileStage::Extract => FileStage::Cleanup,
        FileStage::Cleanup => FileStage::Succeeded,
        FileStage::Succeeded => FileStage::Succeeded,
        FileStage::Failed => FileStage::Failed,
    }
}

/// Decides what follows a stage. A failure while preparing, invoking the tools
/// or loading the tree fails the file and removes its output directory; per-function
/// failures during extraction and a failed cleanup are reported, and the file
/// still succeeds.
pub fn advance(stage: FileStage, outcome: Result<(), ExtractError>) -> (r: Transition)
    ensures
        r.next == stage_after(stage, outcome),
        r.remove_output_dir <==> (is_fatal_stage(stage) && outcome is Err),
        r.log_error <==> (!is_terminal(stage) && outcome is Err),
{
    let failed = outcome.is_err();
    let next = match stage {
        FileStage::Prepare => if failed {
            FileStage::Failed
        } else {
            FileStage::Invoke
        },
        FileStage::Invoke => if failed {
            FileStage::Failed
        } else {
            FileStage::Load
        },
        FileStage::Load => if failed {
            FileStage::Failed
        } else {
            FileStage::Extract
        },
        FileStage::Extract => FileStage::Cleanup,
        FileStage::Cleanup => FileStage::Succeeded,
        FileStage::Succeeded => FileStage::Succeeded,
        FileStage::Failed => FileStage::Failed,
    };
    let fatal = match stage {
        FileStage::Prepare | FileStage::Invoke | FileStage::Load => true,
        _ => false,
    };
    let terminal = match stage {
        FileStage::Succeeded | FileStage::Failed => true,
        _ => false,
    };
    Transition { next, remove_output_dir: fatal && failed, log_error: !terminal && failed }
}

/// Whether a file that ended in `stage` counts as processed.
pub fn counts_as_processed(stage: FileStage) -> (r: bool)
    ensures
        r <==> stage == FileStage::Succeeded,
{
    match stage {
        FileStage::Succeeded => true,
        _ => false,
    }
}

/// The stage a file reaches from `stage` when the stages report `outcomes` in turn.
pub open spec fn run_stages(stage: FileStage, outcomes: Seq<Result<(), ExtractError>>) -> FileStage
    decreases outcomes.len(),
{
    if outcomes.len() == 0 {
        stage
    } else {
        run_stages(stage_after(stage, outcomes[0]), outcomes.drop_first())
    }
}

/// A run of the five stages from the start ends in failure exactly when one of
/// the first three failed, and in success otherwise.
pub proof fn file_fails_only_on_fatal_stage(outcomes: Seq<Result<(), ExtractError>>)
    requires
        outcomes.len() == 5,
    ensures
        run_stages(FileStage::Prepare, outcomes) == (if outcomes[0] is Err || outcomes[1] is Err
            || outcomes[2] is Err {
            FileStage::Failed
        } else {
            FileStage::Succeeded
        }),
{
    reveal_with_fuel(run_stages, 6);
    assert(outcomes.drop_first().drop_first().drop_first().drop_first().drop_first().len() == 0);
}

} // verus!
