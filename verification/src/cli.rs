//! The command line of the browser: one required option, the database file,
//! and how that file is opened.

use vstd::prelude::*;

verus! {

/// The arguments of the program.
#[derive(Debug)]
pub struct Args {
    /// Input sqlite file
    pub input: String,
}

/// How a database file is opened.
#[derive(Debug)]
pub struct OpenOptions {
    /// The path of the file.
    pub filename: String,
    /// Whether a file that is not there is created.
    pub create_if_missing: bool,
    /// Whether the file is opened for reading only.
    pub read_only: bool,
}

impl Args {
    /// The arguments for the database file at `input`.
    pub fn from(input: String) -> (args: Args)
        ensures
            args.input@ == input@,
    {
        Args { input }
    }

    /// How the browser opens its input file: for reading only, and never
    /// creating it, so that a file that is not there fails the start.
    pub fn open_options(&self) -> (options: OpenOptions)
        ensures
            options.filename@ == self.input@,
            !options.create_if_missing,
            options.read_only,
    {
        OpenOptions { filename: self.input.clone(), create_if_missing: false, read_only: true }
    }
}

} // verus!
