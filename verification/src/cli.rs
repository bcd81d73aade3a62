//! The options of the command-line compiler, as plain values.

use vstd::prelude::*;

verus! {

/// What the compiler was asked to do.
#[derive(Clone, Debug)]
pub struct Args {
    /// Skip printing of private functions.
    pub skip_private: bool,
    /// Do not print the disassembled bytecodes of each function.
    pub skip_code: bool,
    /// Do not print locals of each function.
    pub skip_locals: bool,
    /// Do not print the basic blocks of each function.
    pub skip_basic_blocks: bool,
    /// Treat input file as a script (default is to treat file as a module)
    pub is_script: bool,
    /// The path to the move bytecode file to compile.
    pub bytecode_file_path: Option<String>,
    /// Path to the move source direcory (containing Move.toml)
    pub move_package_path: Option<String>,
    /// Call Move compiler and pass this option.
    pub compile: Option<String>,
    /// Output file extension. This is used with the compile option.
    /// Each module `mod` created in compilation is placed into the file
    /// `mod.ll` by default; the extension may be changed by this option.
    pub output_file_extension: String,
    /// Bytecode dependencies, sorted.
    pub bytecode_dependency_paths: Vec<String>,
    /// Path to output file or, if the compile option is set, to the output
    /// directory.
    pub output_file_path: String,
    /// Output llvm bitcode in a human readable text format.
    pub llvm_ir: bool,
    /// Output an object file
    pub obj: bool,
    /// Provide signers to a script (only for testing/debugging purposes).
    pub test_signers: Vec<String>,
    /// Write or view GraphViz dot graph files for each CFG.
    /// ("write": gen dot files, "view": gen dot files and invoke xdot viewer)
    pub gen_dot_cfg: String,
    /// Path to GraphViz output files (defaults to current working directory).
    pub dot_file_path: String,
}

impl Default for Args {
    /// The options as they stand when nothing is given on the command
    /// line: no flag set, no path, the extension `ll`, output to `-`.
    fn default() -> (args: Self)
        ensures
            !args.skip_private && !args.skip_code && !args.skip_locals && !args.skip_basic_blocks,
            !args.is_script && !args.llvm_ir && !args.obj,
            args.bytecode_file_path is None,
            args.move_package_path is None,
            args.compile is None,
            args.output_file_extension@ == "ll"@,
            args.bytecode_dependency_paths@.len() == 0,
            args.output_file_path@ == "-"@,
            args.test_signers@.len() == 0,
            args.gen_dot_cfg@ == ""@,
            args.dot_file_path@ == ""@,
    {
        Args {
            skip_private: false,
            skip_code: false,
            skip_locals: false,
            skip_basic_blocks: false,
            is_script: false,
            bytecode_file_path: None,
            move_package_path: None,
            compile: None,
            output_file_extension: "ll".to_owned(),
            bytecode_dependency_paths: Vec::new(),
            output_file_path: "-".to_owned(),
            llvm_ir: false,
            obj: false,
            test_signers: Vec::new(),
            gen_dot_cfg: "".to_owned(),
            dot_file_path: "".to_owned(),
        }
    }
}

} // verus!
