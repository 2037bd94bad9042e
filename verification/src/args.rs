//! The arguments of the `run` command, once the input options are taken out.

use vstd::prelude::*;

verus! {

/// The arguments that remain for the general parser, as it hands them back.
#[derive(Debug, PartialEq, Eq)]
pub struct Args {
    pub cmd_run: bool,
    /// The algorithm to call: `USERNAME/ALGONAME[/VERSION]`.
    pub arg_algorithm: String,
    /// Print the body of the response in place of the result.
    pub flag_response_body: bool,
    /// Print the whole response, headers included, in place of the result.
    pub flag_response: bool,
    /// Print nothing that was not asked for, except the result.
    pub flag_silence: bool,
    /// Print a summary of the metadata.
    pub flag_meta: bool,
    /// Ask for what the algorithm prints, and print it.
    pub flag_debug: bool,
    /// Write the result to this file.
    pub flag_output: Option<String>,
    /// The timeout of the algorithm, in seconds.
    pub flag_timeout: Option<u32>,
}

} // verus!
