//! Properties that relate the supplier's lookups to what is made of the files.
use crate::paths::joined_path;
use crate::supplier::{
    config_file_name, toml_outcome, udl_outcome, CliCrateConfigSupplier, ConfigSource, FileRead,
    SupplierError,
};
use vstd::prelude::*;

verus! {

/// A configuration file named for a crate is the one read, also where a
/// source directory is known for that crate.
pub proof fn lemma_named_config_wins(sup: &CliCrateConfigSupplier, crate_name: Seq<char>)
    requires
        sup.configs().contains_key(crate_name),
    ensures
        sup.source_for(crate_name) == ConfigSource::Explicit(sup.configs()[crate_name]),
{
}

/// A crate known only by its source directory is configured from the
/// conventional file in that directory, and where that file is missing it
/// has no configuration: no error comes of it.
pub proof fn lemma_crate_dir_config_optional(sup: &CliCrateConfigSupplier, crate_name: Seq<char>)
    requires
        !sup.configs().contains_key(crate_name),
        sup.paths().contains_key(crate_name),
    ensures
        sup.source_for(crate_name) == ConfigSource::CrateDir(
            joined_path(sup.paths()[crate_name], config_file_name()),
        ),
        toml_outcome(sup.source_for(crate_name), FileRead::Missing) == Ok::<
            bool,
            SupplierError<Seq<char>>,
        >(false),
{
}

/// Asking for an interface file of a crate with no known source directory
/// fails with `NoKnownPath`; with a known directory and no file there, it
/// fails with `UdlNotFound`, a variant of its own.
pub proof fn lemma_udl_errors_distinct(
    sup: &CliCrateConfigSupplier,
    crate_name: Seq<char>,
    udl_name: Seq<char>,
)
    ensures
        !sup.paths().contains_key(crate_name) ==> sup.udl_location(crate_name, udl_name) == Err::<
            Seq<char>,
            SupplierError<Seq<char>>,
        >(SupplierError::NoKnownPath(crate_name)),
        sup.paths().contains_key(crate_name) ==> (sup.udl_location(crate_name, udl_name) matches Ok(
            p,
        ) && udl_outcome(p, FileRead::Missing) == Err::<Seq<char>, SupplierError<Seq<char>>>(
            SupplierError::UdlNotFound(p),
        )),
{
}

} // verus!
