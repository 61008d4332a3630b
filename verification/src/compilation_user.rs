//! The options of one code-generation run. The driver reads them, runs the
//! emission, and writes the generated sources where they say.
use vstd::prelude::*;

verus! {

/// Where the generated C sources go, and which outputs are wanted.
pub struct CompilerConfig {
    pub c_folder: String,
    pub c_run_name: String,
    pub c_file: String,
    pub dat_file: String,
    pub c_flag: bool,
    pub debug_output: bool,
    pub produce_input_log: bool,
}

} // verus!
