//! Output parsers with fixed answers.
use crate::result::CoverageParseErr;
use crate::runners::OutputParser;
use vstd::prelude::*;

verus! {

/// Reports `coverage` hundredths of a percent whatever the output.
pub fn working(coverage: u32) -> (r: WorkingOutputParser)
    ensures
        r.coverage == coverage,
{
    WorkingOutputParser::make(coverage)
}

pub struct WorkingOutputParser {
    pub coverage: u32,
}

impl WorkingOutputParser {
    fn make(coverage: u32) -> (r: Self)
        ensures
            r.coverage == coverage,
    {
        WorkingOutputParser { coverage }
    }
}

impl OutputParser for WorkingOutputParser {
    open spec fn reported(&self, output: Seq<char>) -> Option<u32> {
        Some(self.coverage)
    }

    fn parse(&self, _output: String) -> (r: Result<u32, CoverageParseErr>) {
        Ok(self.coverage)
    }
}

/// Finds no report in any output.
pub fn failing() -> FailingOutputParser {
    FailingOutputParser::make()
}

pub struct FailingOutputParser;

impl FailingOutputParser {
    fn make() -> Self {
        FailingOutputParser
    }
}

impl OutputParser for FailingOutputParser {
    open spec fn reported(&self, output: Seq<char>) -> Option<u32> {
        None
    }

    fn parse(&self, _output: String) -> (r: Result<u32, CoverageParseErr>) {
        Err(CoverageParseErr::NoLastLine)
    }
}

} // verus!
