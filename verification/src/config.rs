//! The resolved configuration of one run. An external collaborator parses
//! the command line; the library receives the outcome as plain values and
//! holds it immutable for the run's duration.

use crate::capture::CaptureMode;
use crate::bytes::copy_bytes;
use crate::workspace::suffix_is_valid;
use crate::workspace::suffix_valid;
use vstd::prelude::*;

verus! {

/// Everything one run is configured with. Strings arrive as their bytes:
/// the utility name and the arguments go to the operating system as bytes,
/// and the input is captured as bytes.
pub struct Config {
    /// The program to execute on the captured input.
    pub utility: Vec<u8>,
    /// The template argument list handed to the utility.
    pub arguments: Vec<Vec<u8>>,
    /// Appended verbatim to the workspace file's name.
    pub suffix: Vec<u8>,
    /// When present, selects text mode with this logical end-of-input line.
    pub eof_marker: Option<Vec<u8>>,
    /// When present, every occurrence of it in an argument becomes the
    /// workspace file's path; when absent, the path is appended instead.
    pub placeholder: Option<Vec<u8>>,
    /// Rebind the child's standard input to the controlling terminal.
    pub reopen_controlling_tty: bool,
}

impl Config {
    /// A configuration is well formed when its suffix holds no path
    /// separator.
    pub open spec fn wf(self) -> bool {
        suffix_valid(self.suffix@)
    }

    /// Builds the configuration, rejecting a suffix that holds a path
    /// separator; every other value is taken as given.
    pub fn new(
        utility: Vec<u8>,
        arguments: Vec<Vec<u8>>,
        suffix: Vec<u8>,
        eof_marker: Option<Vec<u8>>,
        placeholder: Option<Vec<u8>>,
        reopen_controlling_tty: bool,
    ) -> (result: Option<Config>)
        ensures
            result is Some <==> suffix_valid(suffix@),
            result matches Some(c) ==> c == (Config {
                utility,
                arguments,
                suffix,
                eof_marker,
                placeholder,
                reopen_controlling_tty,
            }) && c.wf(),
    {
        if suffix_is_valid(&suffix) {
            Some(
                Config {
                    utility,
                    arguments,
                    suffix,
                    eof_marker,
                    placeholder,
                    reopen_controlling_tty,
                },
            )
        } else {
            None
        }
    }

    /// The logical end-of-input marker's bytes, when one is configured.
    pub open spec fn spec_marker(self) -> Option<Seq<u8>> {
        match self.eof_marker {
            Some(m) => Some(m@),
            None => None,
        }
    }

    /// The capture mode the configuration selects, fixed before any byte is
    /// read: text mode exactly when a logical end-of-input marker is set.
    pub fn capture_mode(&self) -> (mode: CaptureMode)
        ensures
            mode.spec_marker() == self.spec_marker(),
    {
        match &self.eof_marker {
            Some(marker) => CaptureMode::Text { marker: copy_bytes(marker) },
            None => CaptureMode::Binary,
        }
    }
}

} // verus!
