//! The command line's options, and what they ask to be run.
use crate::supplier::{pairs_view, table_of, CliCrateConfigSupplier};
use vstd::prelude::*;

verus! {

/// The options of one invocation, as given.
pub struct Cli {
    /// Directory for the generated files; by default the interface file's own.
    pub out_dir: Option<String>,
    /// Configuration file; by default it is looked for beside the interface file.
    pub config: Option<String>,
    /// Configuration file by crate name.
    pub crate_configs: Vec<(String, String)>,
    /// Source directory by crate name.
    pub crate_paths: Vec<(String, String)>,
    /// Native library to take proc-macro metadata from.
    pub lib_file: Option<String>,
    /// `source` is a compiled library rather than an interface file.
    pub library_mode: bool,
    /// In library mode, the one crate to generate for; otherwise the crate's name.
    pub crate_name: Option<String>,
    /// Run a code formatter on what is generated.
    pub try_format_code: bool,
    /// The interface file, or the compiled library in library mode.
    pub source: String,
}

/// A combination of options that cannot be run.
#[derive(Debug, Clone, Copy, PartialEq, Eq)]
pub enum UsageError {
    /// A library file was named in library mode.
    LibFileWithLibrary,
    /// Library mode was asked for without an output directory.
    MissingOutDir,
}

impl UsageError {
    /// The message that the invocation stops with.
    pub fn message(&self) -> (r: String)
        ensures
            r@ == match self {
                UsageError::LibFileWithLibrary => "--lib-file is not compatible with --library."@,
                UsageError::MissingOutDir => "--out-dir is required when using --library"@,
            },
    {
        match self {
            UsageError::LibFileWithLibrary => {
                proof {
                    reveal_strlit("--lib-file is not compatible with --library.");
                }
                "--lib-file is not compatible with --library.".to_owned()
            },
            UsageError::MissingOutDir => {
                proof {
                    reveal_strlit("--out-dir is required when using --library");
                }
                "--out-dir is required when using --library".to_owned()
            },
        }
    }
}

/// What the generator is to be run on.
pub enum Invocation {
    /// Generate for the crates whose interfaces are embedded in a compiled library.
    Library {
        library: String,
        crate_name: Option<String>,
        supplier: CliCrateConfigSupplier,
        config: Option<String>,
        out_dir: String,
        try_format_code: bool,
    },
    /// Generate for one interface file.
    External {
        udl_file: String,
        config: Option<String>,
        out_dir: Option<String>,
        lib_file: Option<String>,
        crate_name: Option<String>,
        try_format_code: bool,
    },
}

/// Checks the options and says what to run. Library mode takes no library
/// file and needs an output directory, and that is checked before anything
/// is read or generated.
pub fn plan(cli: Cli) -> (r: Result<Invocation, UsageError>)
    ensures
        cli.library_mode && cli.lib_file is Some ==> r == Err::<Invocation, UsageError>(
            UsageError::LibFileWithLibrary,
        ),
        cli.library_mode && cli.out_dir is None ==> r is Err,
        cli.library_mode && cli.lib_file is None && cli.out_dir is None ==> r == Err::<
            Invocation,
            UsageError,
        >(UsageError::MissingOutDir),
        match r {
            Err(e) => cli.library_mode && if cli.lib_file is Some {
                e == UsageError::LibFileWithLibrary
            } else {
                cli.out_dir is None && e == UsageError::MissingOutDir
            },
            Ok(
                Invocation::Library { library, crate_name, supplier, config, out_dir, try_format_code },
            ) => {
                &&& cli.library_mode
                &&& cli.lib_file is None
                &&& cli.out_dir == Some(out_dir)
                &&& library == cli.source
                &&& crate_name == cli.crate_name
                &&& config == cli.config
                &&& try_format_code == cli.try_format_code
                &&& supplier.configs() == table_of(pairs_view(cli.crate_configs@))
                &&& supplier.paths() == table_of(pairs_view(cli.crate_paths@))
            },
            Ok(
                Invocation::External { udl_file, config, out_dir, lib_file, crate_name, try_format_code },
            ) => {
                &&& !cli.library_mode
                &&& udl_file == cli.source
                &&& config == cli.config
                &&& out_dir == cli.out_dir
                &&& lib_file == cli.lib_file
                &&& crate_name == cli.crate_name
                &&& try_format_code == cli.try_format_code
            },
        },
{
    let Cli {
        out_dir,
        config,
        crate_configs,
        crate_paths,
        lib_file,
        library_mode,
        crate_name,
        try_format_code,
        source,
    } = cli;
    if library_mode {
        if lib_file.is_some() {
            return Err(UsageError::LibFileWithLibrary);
        }
        let out_dir = match out_dir {
            Some(d) => d,
            None => {
                return Err(UsageError::MissingOutDir);
            },
        };
        Ok(
            Invocation::Library {
                library: source,
                crate_name,
                supplier: CliCrateConfigSupplier::new(crate_configs, crate_paths),
                config,
                out_dir,
                try_format_code,
            },
        )
    } else {
        Ok(
            Invocation::External {
                udl_file: source,
                config,
                out_dir,
                lib_file,
                crate_name,
                try_format_code,
            },
        )
    }
}

} // verus!
