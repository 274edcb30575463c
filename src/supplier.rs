//! Per-crate configuration and interface files, located from the tables given
//! on the command line.
use crate::paths::{join_path, joined_path};
use crate::text::push_text;
use crate::toml_file::{parse_table, toml_rejection};
use vstd::hash_map::StringHashMap;
use vstd::prelude::*;

verus! {

/// The pairs of `pairs` as character sequences.
pub open spec fn pairs_view(pairs: Seq<(String, String)>) -> Seq<(Seq<char>, Seq<char>)> {
    pairs.map_values(|p: (String, String)| (p.0@, p.1@))
}

/// The table that `pairs` make when each is entered in turn: for a key given
/// more than once, the last value stands.
pub open spec fn table_of(pairs: Seq<(Seq<char>, Seq<char>)>) -> Map<Seq<char>, Seq<char>>
    decreases pairs.len(),
{
    if pairs.len() == 0 {
        Map::empty()
    } else {
        table_of(pairs.drop_last()).insert(pairs.last().0, pairs.last().1)
    }
}

/// The values of `m` as character sequences.
pub open spec fn text_values(m: Map<Seq<char>, String>) -> Map<Seq<char>, Seq<char>> {
    m.map_values(|v: String| v@)
}

/// Builds the table of `pairs`, the last value of a repeated key standing.
fn table_from_pairs(pairs: Vec<(String, String)>) -> (r: StringHashMap<String>)
    ensures
        text_values(r@) == table_of(pairs_view(pairs@)),
{
    let mut m: StringHashMap<String> = StringHashMap::new();
    let mut i: usize = 0;
    proof {
        assert(text_values(m@) =~= Map::empty());
        assert(pairs_view(pairs@).take(0).len() == 0);
    }
    while i < pairs.len()
        invariant
            i <= pairs@.len(),
            text_values(m@) == table_of(pairs_view(pairs@).take(i as int)),
        decreases pairs@.len() - i,
    {
        let k = pairs[i].0.clone();
        let v = pairs[i].1.clone();
        proof {
            let pv = pairs_view(pairs@);
            assert(pv.take(i + 1).drop_last() =~= pv.take(i as int));
            assert(pv.take(i + 1).last() == (k@, v@));
            assert(text_values(m@.insert(k@, v)) =~= text_values(m@).insert(k@, v@));
        }
        m.insert(k, v);
        i = i + 1;
    }
    proof {
        assert(pairs_view(pairs@).take(i as int) =~= pairs_view(pairs@));
    }
    m
}

/// Where the configuration of a crate is to be read from.
#[derive(Debug, PartialEq, Eq)]
pub enum ConfigSource<P> {
    /// A file named for the crate on the command line.
    Explicit(P),
    /// The conventionally named file inside the crate's source directory.
    CrateDir(P),
    /// Nothing is known of the crate: it has no configuration.
    Unconfigured,
}

impl View for ConfigSource<String> {
    type V = ConfigSource<Seq<char>>;

    open spec fn view(&self) -> ConfigSource<Seq<char>> {
        match self {
            ConfigSource::Explicit(p) => ConfigSource::Explicit(p@),
            ConfigSource::CrateDir(p) => ConfigSource::CrateDir(p@),
            ConfigSource::Unconfigured => ConfigSource::Unconfigured,
        }
    }
}

/// What became of reading a file.
#[derive(Debug, PartialEq, Eq)]
pub enum FileRead<T> {
    /// The file was read; this is its text.
    Contents(T),
    /// No file is at the path.
    Missing,
    /// The file is there and could not be read, for this reason.
    Failed(T),
}

impl View for FileRead<String> {
    type V = FileRead<Seq<char>>;

    open spec fn view(&self) -> FileRead<Seq<char>> {
        match self {
            FileRead::Contents(t) => FileRead::Contents(t@),
            FileRead::Missing => FileRead::Missing,
            FileRead::Failed(t) => FileRead::Failed(t@),
        }
    }
}

/// Why a configuration or interface file could not be supplied.
#[derive(Debug, PartialEq, Eq)]
pub enum SupplierError<T> {
    /// No source directory was given for the crate of this name.
    NoKnownPath(T),
    /// The interface file is not at this path.
    UdlNotFound(T),
    /// The configuration file named for a crate is not at this path.
    ConfigNotFound(T),
    /// The file at `path` could not be read.
    Unreadable { path: T, reason: T },
    /// The file at `path` is not a TOML table.
    InvalidToml { path: T, reason: T },
}

impl View for SupplierError<String> {
    type V = SupplierError<Seq<char>>;

    open spec fn view(&self) -> SupplierError<Seq<char>> {
        match self {
            SupplierError::NoKnownPath(t) => SupplierError::NoKnownPath(t@),
            SupplierError::UdlNotFound(t) => SupplierError::UdlNotFound(t@),
            SupplierError::ConfigNotFound(t) => SupplierError::ConfigNotFound(t@),
            SupplierError::Unreadable { path, reason } => SupplierError::Unreadable {
                path: path@,
                reason: reason@,
            },
            SupplierError::InvalidToml { path, reason } => SupplierError::InvalidToml {
                path: path@,
                reason: reason@,
            },
        }
    }
}

/// The name of a crate's configuration file inside its source directory.
pub open spec fn config_file_name() -> Seq<char> {
    "uniffi.toml"@
}

/// Configuration files and source directories of crates, by crate name.
pub struct CliCrateConfigSupplier {
    crate_configs: StringHashMap<String>,
    crate_pths: StringHashMap<String>,
}

impl CliCrateConfigSupplier {
    /// Configuration file paths by crate name.
    pub closed spec fn configs(&self) -> Map<Seq<char>, Seq<char>> {
        text_values(self.crate_configs@)
    }

    /// Source directories by crate name.
    pub closed spec fn paths(&self) -> Map<Seq<char>, Seq<char>> {
        text_values(self.crate_pths@)
    }

    /// Makes the supplier from `key=value` pairs of crate names and paths; for a
    /// crate named twice in one list, the later path stands.
    pub fn new(crate_configs: Vec<(String, String)>, crate_paths: Vec<(String, String)>) -> (r:
        Self)
        ensures
            r.configs() == table_of(pairs_view(crate_configs@)),
            r.paths() == table_of(pairs_view(crate_paths@)),
    {
        CliCrateConfigSupplier {
            crate_configs: table_from_pairs(crate_configs),
            crate_pths: table_from_pairs(crate_paths),
        }
    }

    /// Where the configuration of `crate_name` is: the file named for it if
    /// there is one, else the conventional file in its source directory.
    pub open spec fn source_for(&self, crate_name: Seq<char>) -> ConfigSource<Seq<char>> {
        if self.configs().contains_key(crate_name) {
            ConfigSource::Explicit(self.configs()[crate_name])
        } else if self.paths().contains_key(crate_name) {
            ConfigSource::CrateDir(joined_path(self.paths()[crate_name], config_file_name()))
        } else {
            ConfigSource::Unconfigured
        }
    }

    /// Locates the configuration file of `crate_name`.
    pub fn config_source(&self, crate_name: &str) -> (r: ConfigSource<String>)
        ensures
            r@ == self.source_for(crate_name@),
    {
        match self.crate_configs.get(crate_name) {
            Some(path) => ConfigSource::Explicit(path.clone()),
            None => match self.crate_pths.get(crate_name) {
                Some(dir) => {
                    let path = join_path(dir.as_str(), "uniffi.toml");
                    proof {
                        reveal_strlit("uniffi.toml");
                    }
                    ConfigSource::CrateDir(path)
                },
                None => ConfigSource::Unconfigured,
            },
        }
    }

    /// Where the interface file `udl_name` of `crate_name` is: `<dir>/src/<udl_name>.udl`
    /// in the crate's source directory, which must be known.
    pub open spec fn udl_location(&self, crate_name: Seq<char>, udl_name: Seq<char>) -> Result<
        Seq<char>,
        SupplierError<Seq<char>>,
    > {
        if self.paths().contains_key(crate_name) {
            Ok(
                joined_path(
                    joined_path(self.paths()[crate_name], "src"@),
                    udl_name + ".udl"@,
                ),
            )
        } else {
            Err(SupplierError::NoKnownPath(crate_name))
        }
    }

    /// Locates the interface file `udl_name` of `crate_name`.
    pub fn udl_path(&self, crate_name: &str, udl_name: &str) -> (r: Result<
        String,
        SupplierError<String>,
    >)
        ensures
            text_result(r) == self.udl_location(crate_name@, udl_name@),
    {
        match self.crate_pths.get(crate_name) {
            Some(dir) => {
                let src = join_path(dir.as_str(), "src");
                let mut file = udl_name.to_owned();
                push_text(&mut file, ".udl");
                proof {
                    reveal_strlit("src");
                    reveal_strlit(".udl");
                }
                Ok(join_path(src.as_str(), file.as_str()))
            },
            None => Err(SupplierError::NoKnownPath(crate_name.to_owned())),
        }
    }
}

/// The path of a configuration source, when it has one.
pub open spec fn source_path(source: ConfigSource<Seq<char>>) -> Option<Seq<char>> {
    match source {
        ConfigSource::Explicit(p) => Some(p),
        ConfigSource::CrateDir(p) => Some(p),
        ConfigSource::Unconfigured => None,
    }
}

/// What loading a configuration comes to, given where it is and what reading
/// that file gave: `Ok(true)` for a table, `Ok(false)` for no configuration. A
/// file missing from a crate's directory means no configuration; one named
/// for the crate must be there.
pub open spec fn toml_outcome(
    source: ConfigSource<Seq<char>>,
    read: FileRead<Seq<char>>,
) -> Result<bool, SupplierError<Seq<char>>> {
    match source_path(source) {
        None => Ok(false),
        Some(p) => match read {
            FileRead::Contents(t) => match toml_rejection(t) {
                None => Ok(true),
                Some(m) => Err(SupplierError::InvalidToml { path: p, reason: m }),
            },
            FileRead::Missing => if source is Explicit {
                Err(SupplierError::ConfigNotFound(p))
            } else {
                Ok(false)
            },
            FileRead::Failed(m) => Err(SupplierError::Unreadable { path: p, reason: m }),
        },
    }
}

/// The shape of a loaded configuration: whether a table came back, or the error.
pub open spec fn table_outcome(r: Result<Option<toml::value::Table>, SupplierError<String>>) -> Result<
    bool,
    SupplierError<Seq<char>>,
> {
    match r {
        Ok(t) => Ok(t is Some),
        Err(e) => Err(e@),
    }
}

/// Loads the configuration at `source` from `read`, the outcome of reading
/// the file at its path (ignored when there is no path).
pub fn load_toml_file(source: &ConfigSource<String>, read: FileRead<String>) -> (r: Result<
    Option<toml::value::Table>,
    SupplierError<String>,
>)
    ensures
        table_outcome(r) == toml_outcome(source@, read@),
        r matches Ok(Some(_)) ==> read matches FileRead::Contents(t) && toml_rejection(t@) is None,
{
    let path = match source {
        ConfigSource::Explicit(p) => p,
        ConfigSource::CrateDir(p) => p,
        ConfigSource::Unconfigured => {
            return Ok(None);
        },
    };
    match read {
        FileRead::Contents(text) => match parse_table(text.as_str()) {
            Ok(table) => Ok(Some(table)),
            Err(reason) => Err(SupplierError::InvalidToml { path: path.clone(), reason }),
        },
        FileRead::Missing => match source {
            ConfigSource::Explicit(_) => Err(SupplierError::ConfigNotFound(path.clone())),
            _ => Ok(None),
        },
        FileRead::Failed(reason) => Err(SupplierError::Unreadable { path: path.clone(), reason }),
    }
}

/// A text result as character sequences.
pub open spec fn text_result(r: Result<String, SupplierError<String>>) -> Result<
    Seq<char>,
    SupplierError<Seq<char>>,
> {
    match r {
        Ok(t) => Ok(t@),
        Err(e) => Err(e@),
    }
}

/// What reading the interface file at `path` comes to, given what reading it
/// gave.
pub open spec fn udl_outcome(path: Seq<char>, read: FileRead<Seq<char>>) -> Result<
    Seq<char>,
    SupplierError<Seq<char>>,
> {
    match read {
        FileRead::Contents(t) => Ok(t),
        FileRead::Missing => Err(SupplierError::UdlNotFound(path)),
        FileRead::Failed(m) => Err(SupplierError::Unreadable { path, reason: m }),
    }
}

/// The text of the interface file at `path`, from `read`, the outcome of
/// reading it.
pub fn read_udl(path: String, read: FileRead<String>) -> (r: Result<String, SupplierError<String>>)
    ensures
        text_result(r) == udl_outcome(path@, read@),
{
    match read {
        FileRead::Contents(text) => Ok(text),
        FileRead::Missing => Err(SupplierError::UdlNotFound(path)),
        FileRead::Failed(reason) => Err(SupplierError::Unreadable { path, reason }),
    }
}

} // verus!
