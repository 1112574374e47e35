use vstd::prelude::*;
use crate::session::ExitStatus;

verus! {

/// The exit codes the run's options parser and processing report with.
#[derive(Clone, Copy, Debug, PartialEq, Eq, Structural)]
pub struct ExitCodes {
    pub ok: i32,
    pub no_input_files: i32,
    pub with_help: i32,
    pub no_captions: i32,
}

/// What the driver does once the command line has been parsed.
#[derive(Clone, Copy, Debug, PartialEq, Eq, Structural)]
pub enum ParseOutcome {
    /// No input files were given: print the usage and exit with this code.
    ShowUsageAndExit(i32),
    /// Help was printed: end normally.
    EndAfterHelp,
    /// The parameters were refused: exit with this code.
    Exit(i32),
    /// Start processing.
    Start,
}

/// The outcome for the parser's return code.
pub open spec fn parse_outcome_for(code: i32, codes: ExitCodes) -> ParseOutcome {
    if code == codes.no_input_files {
        ParseOutcome::ShowUsageAndExit(code)
    } else if code == codes.with_help {
        ParseOutcome::EndAfterHelp
    } else if code != codes.ok {
        ParseOutcome::Exit(code)
    } else {
        ParseOutcome::Start
    }
}

impl ExitCodes {
    /// Decides from the parser's return code whether processing starts.
    pub fn parse_outcome(&self, code: i32) -> (r: ParseOutcome)
        ensures
            r == parse_outcome_for(code, *self),
            r == ParseOutcome::Start <==> (code == self.ok && code != self.no_input_files && code != self.with_help),
            code == self.no_input_files ==> r == ParseOutcome::ShowUsageAndExit(code),
            code != self.no_input_files && code == self.with_help ==> r == ParseOutcome::EndAfterHelp,
            (r matches ParseOutcome::Exit(c) ==> c == code && c != self.ok),
    {
        if code == self.no_input_files {
            ParseOutcome::ShowUsageAndExit(code)
        } else if code == self.with_help {
            ParseOutcome::EndAfterHelp
        } else if code != self.ok {
            ParseOutcome::Exit(code)
        } else {
            ParseOutcome::Start
        }
    }

    /// The process exit code for a run's exit status.
    pub fn code_for(&self, status: ExitStatus) -> (r: i32)
        ensures
            status == ExitStatus::Success ==> r == self.ok,
            status == ExitStatus::NoCaptions ==> r == self.no_captions,
    {
        match status {
            ExitStatus::Success => self.ok,
            ExitStatus::NoCaptions => self.no_captions,
        }
    }
}

/// The argument count as the C parser takes it, when it fits a C `int`.
pub fn argument_count(len: usize) -> (r: Option<i32>)
    ensures
        len <= i32::MAX ==> r == Some(len as i32),
        len > i32::MAX ==> r is None,
{
    if len <= i32::MAX as usize {
        Some(len as i32)
    } else {
        None
    }
}

/// Whether an argument can be handed to C as a NUL-terminated string: it
/// holds no NUL byte.
pub fn is_c_string_compatible(arg: &[u8]) -> (r: bool)
    ensures
        r == !arg@.contains(0u8),
{
    let mut i: usize = 0;
    while i < arg.len()
        invariant
            i <= arg.len(),
            forall|j: int| 0 <= j < i ==> arg@[j] != 0u8,
        decreases arg.len() - i,
    {
        if arg[i] == 0u8 {
            assert(arg@[i as int] == 0u8);
            return false;
        }
        i = i + 1;
    }
    true
}

} // verus!
