//! Levels of the server's log lines and the label printed for each.
use vstd::prelude::*;

verus! {

#[derive(Clone, Copy, Debug, PartialEq, Eq)]
pub enum LogLevel {
    Warn,
    Info,
    Error,
    Success,
}

impl LogLevel {
    /// The label of a log line, padded to seven characters.
    pub open spec fn spec_label(&self) -> Seq<char> {
        match self {
            LogLevel::Warn => "WARNING"@,
            LogLevel::Info => "INFO   "@,
            LogLevel::Error => "ERROR  "@,
            LogLevel::Success => "SUCCESS"@,
        }
    }

    pub fn label(&self) -> (r: &'static str)
        ensures
            r@ == self.spec_label(),
            r@.len() == 7,
    {
        proof {
            reveal_strlit("WARNING");
            reveal_strlit("INFO   ");
            reveal_strlit("ERROR  ");
            reveal_strlit("SUCCESS");
        }
        match self {
            LogLevel::Warn => "WARNING",
            LogLevel::Info => "INFO   ",
            LogLevel::Error => "ERROR  ",
            LogLevel::Success => "SUCCESS",
        }
    }
}

} // verus!
