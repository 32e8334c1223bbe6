//! Error kinds of the pipeline.
use vstd::prelude::*;

verus! {

/// The event bus could not be used.
#[derive(Debug, Clone)]
pub enum BusErr {
    Generic(String),
}

/// Reading the application state failed.
#[derive(Debug, Clone)]
pub enum StateReaderErr {
    Poisoned,
}

/// Writing the application state failed.
#[derive(Debug, Clone)]
pub enum StateWriterErr {
    Bus(BusErr),
    Poisoned,
}

/// The change watcher could not be installed or read.
#[derive(Debug, Clone)]
pub enum WatcherErr {
    Bus(BusErr),
    Receive,
    FsWatcher(String),
    Read(StateReaderErr),
}

/// The tests runner itself malfunctioned.
#[derive(Debug, Clone)]
pub enum RunnerErr {
    Bus(BusErr),
    Read(StateReaderErr),
    Write(StateWriterErr),
}

/// The check runner itself malfunctioned.
#[derive(Debug, Clone)]
pub enum CheckErr {
    Bus(BusErr),
    Read(StateReaderErr),
    Write(StateWriterErr),
}

/// Running a command failed.
#[derive(Debug, Clone)]
pub enum CmdErr {
    Io(String),
    /// The command ran and exited with a non-zero status.
    Failed,
}

/// The tests index itself malfunctioned.
#[derive(Debug, Clone)]
pub enum IndexErr {
    Bus(BusErr),
    Read(StateReaderErr),
    Cmd(CmdErr),
}

/// The coverage runner itself malfunctioned.
#[derive(Debug, Clone)]
pub enum CoverageErr {
    Bus(BusErr),
    Read(StateReaderErr),
    Write(StateWriterErr),
}

/// A worker translating events into state failed.
#[derive(Debug, Clone)]
pub enum SinkErr {
    Bus(BusErr),
    Write(StateWriterErr),
}

/// A request handler failed.
#[derive(Debug, Clone)]
pub enum ServerErr {
    Generic(String),
}

impl ServerErr {
    /// Every handler failure is answered with an internal server error.
    pub fn status_code(&self) -> (r: u16)
        ensures
            r == 500,
    {
        500
    }
}

/// Why a coverage report could not be read.
#[derive(Debug, Clone)]
pub enum CoverageParseErr {
    /// The output holds no non-empty line.
    NoLastLine,
    /// The last non-empty line is not a coverage line.
    InvalidOutput,
    /// The reported percentage is over one hundred; carries the number as written.
    InvalidValue(String),
}

impl Default for CoverageParseErr {
    fn default() -> (r: Self)
        ensures
            r is NoLastLine,
    {
        CoverageParseErr::NoLastLine
    }
}

} // verus!
