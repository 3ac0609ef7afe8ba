use vstd::prelude::*;
use vstd::string::StringExecFns;
use crate::render::{dec_str, usize_to_string};

verus! {

/// The failure kinds of a run. Every failure is terminal: this is a
/// single-shot batch tool and nothing is retried.
#[derive(Clone, Copy, PartialEq, Eq, Structural, Debug)]
pub enum GrepError {
    /// The requested input cannot be opened or read at all.
    SourceOpenError,
    /// A read failure partway through draining the line source;
    /// `last_line` is the index of the last successfully read line.
    IoError { last_line: usize },
    /// The supplied pattern is not a valid regular expression.
    PatternError,
    /// An invalid before/after context count.
    ConfigError,
}

/// The diagnostic for each failure kind; for a read failure it names the
/// index of the last successfully read line.
pub open spec fn describe_spec(e: GrepError) -> Seq<char> {
    match e {
        GrepError::SourceOpenError => "source cannot be opened"@,
        GrepError::IoError { last_line } => "read failure after line "@ + dec_str(
            last_line as int,
        ),
        GrepError::PatternError => "invalid pattern"@,
        GrepError::ConfigError => "invalid context configuration"@,
    }
}

impl GrepError {
    /// A human-readable diagnostic identifying which kind occurred and,
    /// for a read failure, the line index at which it occurred.
    pub fn describe(&self) -> (s: String)
        ensures
            s@ == describe_spec(*self),
    {
        match *self {
            GrepError::SourceOpenError => "source cannot be opened".to_owned(),
            GrepError::IoError { last_line } => {
                let mut s = "read failure after line ".to_owned();
                s.append(usize_to_string(last_line).as_str());
                s
            },
            GrepError::PatternError => "invalid pattern".to_owned(),
            GrepError::ConfigError => "invalid context configuration".to_owned(),
        }
    }
}

} // verus!
