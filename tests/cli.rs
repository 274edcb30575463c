use bindgen_cli::cli::{plan, Cli, Invocation, UsageError};
use bindgen_cli::supplier::ConfigSource;

fn cli(library_mode: bool, lib_file: Option<&str>, out_dir: Option<&str>) -> Cli {
    Cli {
        out_dir: out_dir.map(|s| s.to_string()),
        config: Some("uniffi.toml".to_string()),
        crate_configs: vec![("a".to_string(), "/a.toml".to_string())],
        crate_paths: vec![("b".to_string(), "/b".to_string())],
        lib_file: lib_file.map(|s| s.to_string()),
        library_mode,
        crate_name: Some("a".to_string()),
        try_format_code: true,
        source: "libfoo.so".to_string(),
    }
}

#[test]
fn library_mode_with_lib_file_is_refused() {
    assert!(matches!(
        plan(cli(true, Some("libbar.a"), Some("out"))),
        Err(UsageError::LibFileWithLibrary)
    ));
    assert!(matches!(
        plan(cli(true, Some("libbar.a"), None)),
        Err(UsageError::LibFileWithLibrary)
    ));
    assert_eq!(
        UsageError::LibFileWithLibrary.message(),
        "--lib-file is not compatible with --library."
    );
}

#[test]
fn library_mode_needs_out_dir() {
    assert!(matches!(plan(cli(true, None, None)), Err(UsageError::MissingOutDir)));
    assert_eq!(
        UsageError::MissingOutDir.message(),
        "--out-dir is required when using --library"
    );
}

#[test]
fn library_mode_plan_carries_options() {
    match plan(cli(true, None, Some("out"))) {
        Ok(Invocation::Library { library, crate_name, supplier, config, out_dir, try_format_code }) => {
            assert_eq!(library, "libfoo.so");
            assert_eq!(crate_name.as_deref(), Some("a"));
            assert_eq!(config.as_deref(), Some("uniffi.toml"));
            assert_eq!(out_dir, "out");
            assert!(try_format_code);
            assert_eq!(supplier.config_source("a"), ConfigSource::Explicit("/a.toml".to_string()));
            assert_eq!(supplier.config_source("b"), ConfigSource::CrateDir("/b/uniffi.toml".to_string()));
        }
        _ => panic!("expected a library-mode plan"),
    }
}

#[test]
fn single_file_mode_plan_carries_options() {
    match plan(cli(false, Some("libbar.a"), None)) {
        Ok(Invocation::External { udl_file, config, out_dir, lib_file, crate_name, try_format_code }) => {
            assert_eq!(udl_file, "libfoo.so");
            assert_eq!(config.as_deref(), Some("uniffi.toml"));
            assert_eq!(out_dir, None);
            assert_eq!(lib_file.as_deref(), Some("libbar.a"));
            assert_eq!(crate_name.as_deref(), Some("a"));
            assert!(try_format_code);
        }
        _ => panic!("expected a single-file plan"),
    }
}
