//! The configuration file: where it is, what it can say, and what holds where it says nothing.
//!
//! The file is `$XDG_CONFIG_HOME/yttui/config.toml`, or `~/.config/yttui/config.toml` where that
//! variable is not set. A file that is not there, and whatever a file leaves out, is as in
//! [`Config::default`]. Paths are bytes, as the operating system has them.

use crate::document;
use crate::document::{keys, member, parse_document, Toml};
use crate::text;
use vstd::prelude::*;
use vstd::string::*;

verus! {

broadcast use vstd::seq::group_seq_axioms;

// ---------------------------------------------------------------------------
// The configuration.
// ---------------------------------------------------------------------------

/// How much is logged.
#[derive(Debug, Clone, Copy, PartialEq, Eq, Structural)]
pub enum LogLevel {
    Off,
    Error,
    Warn,
    Info,
    Debug,
    Trace,
}

/// The section `[general]`.
#[derive(Debug, PartialEq, Eq)]
#[non_exhaustive]
pub struct GeneralConfig {
    /// Reserved. It has no effect.
    pub placeholder: bool,
}

/// The section `[player]`.
#[derive(Debug, PartialEq, Eq)]
#[non_exhaustive]
pub struct PlayerConfig {
    /// What `mpv` is started with besides what this program starts it with.
    pub args: Vec<String>,
}

/// The section `[log]`.
#[derive(Debug, PartialEq, Eq)]
#[non_exhaustive]
pub struct LogConfig {
    pub level: LogLevel,
}

/// The configuration.
#[derive(Debug, PartialEq, Eq)]
#[non_exhaustive]
pub struct Config {
    pub general: GeneralConfig,
    pub player: PlayerConfig,
    pub log: LogConfig,
}

/// What a [`Config`] says.
#[verifier::ext_equal]
pub struct ConfigView {
    pub placeholder: bool,
    pub args: Seq<Seq<char>>,
    pub level: LogLevel,
}

impl View for Config {
    type V = ConfigView;

    open spec fn view(&self) -> ConfigView {
        ConfigView {
            placeholder: self.general.placeholder,
            args: text::texts(self.player.args@),
            level: self.log.level,
        }
    }
}

/// What holds where no file says anything.
pub open spec fn standard() -> ConfigView {
    ConfigView { placeholder: false, args: Seq::empty(), level: LogLevel::Warn }
}

impl Default for GeneralConfig {
    fn default() -> (r: Self)
        ensures
            r.placeholder == standard().placeholder,
    {
        GeneralConfig { placeholder: false }
    }
}

impl Default for PlayerConfig {
    fn default() -> (r: Self)
        ensures
            text::texts(r.args@) == standard().args,
    {
        let r = PlayerConfig { args: Vec::new() };
        assert(text::texts(r.args@) =~= standard().args);
        r
    }
}

impl Default for LogConfig {
    fn default() -> (r: Self)
        ensures
            r.level == standard().level,
    {
        LogConfig { level: LogLevel::Warn }
    }
}

impl Default for Config {
    fn default() -> (r: Self)
        ensures
            r@ == standard(),
    {
        Config {
            general: GeneralConfig::default(),
            player: PlayerConfig::default(),
            log: LogConfig::default(),
        }
    }
}

impl Clone for GeneralConfig {
    fn clone(&self) -> (r: Self)
        ensures
            r == *self,
    {
        GeneralConfig { placeholder: self.placeholder }
    }
}

impl Clone for PlayerConfig {
    fn clone(&self) -> (r: Self)
        ensures
            r.args@ == self.args@,
    {
        let args = self.args.clone();
        assert(args@ =~= self.args@);
        PlayerConfig { args }
    }
}

impl Clone for LogConfig {
    fn clone(&self) -> (r: Self)
        ensures
            r == *self,
    {
        LogConfig { level: self.level }
    }
}

impl Clone for Config {
    fn clone(&self) -> (r: Self)
        ensures
            r@ == self@,
    {
        Config {
            general: self.general.clone(),
            player: self.player.clone(),
            log: self.log.clone(),
        }
    }
}

// ---------------------------------------------------------------------------
// What can go wrong.
// ---------------------------------------------------------------------------

/// Why the file could not be used. The words of what failed come as text.
#[derive(Debug, PartialEq, Eq)]
#[non_exhaustive]
pub enum ConfigError {
    /// The file is there and could not be read.
    Io { path: Vec<u8>, source: String },
    /// The file is no TOML, or says what it cannot say.
    Parse { path: Vec<u8>, source: String },
}

impl ConfigError {
    /// The error in words, without its cause.
    pub open spec fn words(self) -> Seq<char> {
        match self {
            ConfigError::Io { path, .. } => "reading config file "@ + text::lossy(path@),
            ConfigError::Parse { path, .. } => "parsing config file "@ + text::lossy(path@),
        }
    }

    /// The cause in words.
    pub open spec fn cause(self) -> Seq<char> {
        match self {
            ConfigError::Io { source, .. } => source@,
            ConfigError::Parse { source, .. } => source@,
        }
    }

    /// The error in words, without its cause.
    pub fn to_string(&self) -> (r: String)
        ensures
            r@ == self.words(),
    {
        match self {
            ConfigError::Io { path, .. } => text::concat(
                "reading config file ",
                text::read_lossy(path.as_slice()).as_str(),
            ),
            ConfigError::Parse { path, .. } => text::concat(
                "parsing config file ",
                text::read_lossy(path.as_slice()).as_str(),
            ),
        }
    }

    /// The cause in words.
    pub fn source(&self) -> (r: &str)
        ensures
            r@ == self.cause(),
    {
        match self {
            ConfigError::Io { source, .. } => source.as_str(),
            ConfigError::Parse { source, .. } => source.as_str(),
        }
    }
}

// ---------------------------------------------------------------------------
// Where the file is.
// ---------------------------------------------------------------------------

/// What stands between the names in a path.
pub const SLASH: u8 = 47;

/// The path of `name` in the directory `base`.
pub open spec fn path_in(base: Seq<u8>, name: Seq<char>) -> Seq<u8> {
    if base.len() > 0 && base.last() != SLASH {
        base.push(SLASH) + vstd::utf8::encode_utf8(name)
    } else {
        base + vstd::utf8::encode_utf8(name)
    }
}

/// The path of `name` in the directory `base`.
pub fn join_path(base: &[u8], name: &str) -> (r: Vec<u8>)
    ensures
        r@ == path_in(base@, name@),
{
    let mut out: Vec<u8> = Vec::new();
    out.extend_from_slice(base);
    assert(out@ =~= base@);
    if base.len() > 0 && base[base.len() - 1] != SLASH {
        out.push(SLASH);
    }
    out.extend_from_slice(name.as_bytes());
    assert(out@ =~= path_in(base@, name@));
    out
}

/// Where the file is: in `xdg` where that is given, and else in the `.config` of `home`.
pub open spec fn path_from(xdg: Option<Seq<u8>>, home: Option<Seq<u8>>) -> Option<Seq<u8>> {
    match (xdg, home) {
        (Some(base), _) => Some(path_in(path_in(base, "yttui"@), "config.toml"@)),
        (None, Some(home)) => Some(
            path_in(path_in(path_in(home, ".config"@), "yttui"@), "config.toml"@),
        ),
        (None, None) => None,
    }
}

/// What optional bytes say.
pub open spec fn optional_bytes(bytes: Option<Vec<u8>>) -> Option<Seq<u8>> {
    match bytes {
        Some(bytes) => Some(bytes@),
        None => None,
    }
}

// ---------------------------------------------------------------------------
// What the file says.
// ---------------------------------------------------------------------------

/// The level that a text names.
pub open spec fn level_named(name: Seq<char>) -> Option<LogLevel> {
    if name == "off"@ {
        Some(LogLevel::Off)
    } else if name == "error"@ {
        Some(LogLevel::Error)
    } else if name == "warn"@ {
        Some(LogLevel::Warn)
    } else if name == "info"@ {
        Some(LogLevel::Info)
    } else if name == "debug"@ {
        Some(LogLevel::Debug)
    } else if name == "trace"@ {
        Some(LogLevel::Trace)
    } else {
        None
    }
}

/// The level that a text names.
pub fn parse_level(name: &str) -> (r: Option<LogLevel>)
    ensures
        r == level_named(name@),
{
    if text::same_text(name, "off") {
        Some(LogLevel::Off)
    } else if text::same_text(name, "error") {
        Some(LogLevel::Error)
    } else if text::same_text(name, "warn") {
        Some(LogLevel::Warn)
    } else if text::same_text(name, "info") {
        Some(LogLevel::Info)
    } else if text::same_text(name, "debug") {
        Some(LogLevel::Debug)
    } else if text::same_text(name, "trace") {
        Some(LogLevel::Trace)
    } else {
        None
    }
}

/// Whether a section is as it can be: a table with no other field than `field`, or a list, whose
/// first item is then the field.
pub open spec fn section_fits(file: Map<Seq<char>, Toml>, section: Seq<char>, field: Seq<char>) -> bool {
    file.dom().contains(section) ==> match file[section] {
        Toml::Table(table) => forall|key: Seq<char>| #[trigger]
            table.dom().contains(key) ==> key == field,
        Toml::List(_) => true,
        _ => false,
    }
}

/// What a section that is as it can be has for its field.
pub open spec fn field_in(file: Map<Seq<char>, Toml>, section: Seq<char>, field: Seq<char>) -> Option<
    Toml,
> {
    if !file.dom().contains(section) {
        None
    } else {
        match file[section] {
            Toml::Table(table) => if table.dom().contains(field) {
                Some(table[field])
            } else {
                None
            },
            Toml::List(items) => if items.len() > 0 {
                Some(items[0])
            } else {
                None
            },
            _ => None,
        }
    }
}

/// Whether a section is one of those that there are.
pub open spec fn is_section(key: Seq<char>) -> bool {
    key == "general"@ || key == "player"@ || key == "log"@
}

/// Whether there are no other sections than those that there can be.
pub open spec fn sections_fit(file: Map<Seq<char>, Toml>) -> bool {
    forall|key: Seq<char>| #[trigger] file.dom().contains(key) ==> is_section(key)
}

/// Whether a placeholder is left out or a flag.
pub open spec fn placeholder_fits(value: Option<Toml>) -> bool {
    value matches Some(value) ==> value is Flag
}

/// Whether arguments are left out or a list of texts.
pub open spec fn args_fit(value: Option<Toml>) -> bool {
    value matches Some(value) ==> (value matches Toml::List(items) && forall|i: int|
        0 <= i < items.len() ==> #[trigger] items[i] is Text)
}

/// Whether a level is left out or names one.
pub open spec fn level_fits(value: Option<Toml>) -> bool {
    value matches Some(value) ==> (value matches Toml::Text(name) && level_named(name) is Some)
}

/// Whether a document is a configuration.
pub open spec fn fits(document: Toml) -> bool {
    document matches Toml::Table(file) && {
        &&& sections_fit(file)
        &&& section_fits(file, "general"@, "placeholder"@)
        &&& section_fits(file, "player"@, "args"@)
        &&& section_fits(file, "log"@, "level"@)
        &&& placeholder_fits(field_in(file, "general"@, "placeholder"@))
        &&& args_fit(field_in(file, "player"@, "args"@))
        &&& level_fits(field_in(file, "log"@, "level"@))
    }
}

/// The texts in a list of texts.
pub open spec fn texts_in(items: Seq<Toml>) -> Seq<Seq<char>> {
    items.map_values(|item: Toml| item->Text_0)
}

/// The configuration that a document is, where it is one.
pub open spec fn config_in(document: Toml) -> ConfigView {
    let file = document->Table_0;
    ConfigView {
        placeholder: match field_in(file, "general"@, "placeholder"@) {
            Some(Toml::Flag(flag)) => flag,
            _ => standard().placeholder,
        },
        args: match field_in(file, "player"@, "args"@) {
            Some(Toml::List(items)) => texts_in(items),
            _ => standard().args,
        },
        level: match field_in(file, "log"@, "level"@) {
            Some(Toml::Text(name)) => level_named(name)->Some_0,
            _ => standard().level,
        },
    }
}

/// The content of an optional value.
pub open spec fn optional_toml(value: Option<&toml::Value>) -> Option<Toml> {
    match value {
        Some(value) => Some(document::toml_of(*value)),
        None => None,
    }
}

/// What a section has for its field, if the section is as it can be.
fn read_section<'a>(file: &'a toml::Value, section: &str, field: &str) -> (r: Option<
    Option<&'a toml::Value>,
>)
    requires
        document::toml_of(*file) is Table,
    ensures
        r is Some <==> section_fits(document::toml_of(*file)->Table_0, section@, field@),
        r matches Some(value) ==> optional_toml(value) == field_in(
            document::toml_of(*file)->Table_0,
            section@,
            field@,
        ),
{
    let value = match member(file, section) {
        Some(value) => value,
        None => return Some(None),
    };
    if let Some(items) = value.as_array() {
        if items.len() > 0 {
            return Some(Some(&items[0]));
        }
        return Some(None);
    }
    let names = match keys(value) {
        Some(names) => names,
        None => return None,
    };
    let ghost table = document::toml_of(*value)->Table_0;
    let mut i: usize = 0;
    while i < names.len()
        invariant
            i <= names.len(),
            document::toml_of(*file) matches Toml::Table(file) && file.dom().contains(section@)
                && file[section@] == Toml::Table(table),
            forall|j: int| 0 <= j < names@.len() ==> table.dom().contains(#[trigger] names@[j]@),
            forall|j: int| 0 <= j < i ==> #[trigger] names@[j]@ == field@,
        decreases names.len() - i,
    {
        if !text::same_text(names[i].as_str(), field) {
            assert(table.dom().contains(names@[i as int]@));
            return None;
        }
        i += 1;
    }
    Some(member(value, field))
}

fn read_args(value: &toml::Value) -> (r: Option<Vec<String>>)
    ensures
        r is Some <==> args_fit(Some(document::toml_of(*value))),
        r matches Some(args) ==> (document::toml_of(*value) matches Toml::List(items) && text::texts(
            args@,
        ) == texts_in(items)),
{
    let items = match value.as_array() {
        Some(items) => items,
        None => return None,
    };
    let ghost read = document::toml_list(items@);
    let mut args: Vec<String> = Vec::new();
    let mut i: usize = 0;
    assert(text::texts(args@) =~= texts_in(read).take(0));
    while i < items.len()
        invariant
            i <= items.len(),
            read == document::toml_list(items@),
            document::toml_of(*value) == Toml::List(read),
            forall|j: int| 0 <= j < i ==> #[trigger] read[j] is Text,
            text::texts(args@) == texts_in(read).take(i as int),
        decreases items.len() - i,
    {
        match items[i].as_str() {
            Some(arg) => {
                let owned = arg.to_owned();
                proof {
                    text::lemma_texts_push(args@, owned);
                    assert(read[i as int] == Toml::Text(arg@));
                }
                args.push(owned);
            },
            None => {
                assert(!(read[i as int] is Text));
                return None;
            },
        }
        i += 1;
        assert(text::texts(args@) =~= texts_in(read).take(i as int));
    }
    assert(texts_in(read).take(i as int) =~= texts_in(read));
    Some(args)
}

fn check_sections(file: &toml::Value) -> (r: bool)
    ensures
        r <==> document::toml_of(*file) is Table && sections_fit(document::toml_of(*file)->Table_0),
{
    let names = match keys(file) {
        Some(names) => names,
        None => return false,
    };
    let ghost table = document::toml_of(*file)->Table_0;
    let mut i: usize = 0;
    while i < names.len()
        invariant
            i <= names.len(),
            document::toml_of(*file) == Toml::Table(table),
            forall|j: int| 0 <= j < names@.len() ==> table.dom().contains(#[trigger] names@[j]@),
            forall|j: int| 0 <= j < i ==> is_section(#[trigger] names@[j]@),
        decreases names.len() - i,
    {
        let name = names[i].as_str();
        if !text::same_text(name, "general") && !text::same_text(name, "player") && !text::same_text(
            name,
            "log",
        ) {
            assert(table.dom().contains(names@[i as int]@) && !is_section(names@[i as int]@));
            return false;
        }
        i += 1;
    }
    true
}

/// The configuration that a document is, if it is one.
pub fn read_document(file: &toml::Value) -> (r: Option<Config>)
    ensures
        r is Some <==> fits(document::toml_of(*file)),
        r matches Some(config) ==> config@ == config_in(document::toml_of(*file)),
{
    let mut config = Config::default();
    if !check_sections(file) {
        return None;
    }
    match read_section(file, "general", "placeholder") {
        Some(Some(value)) => match value.as_bool() {
            Some(flag) => {
                config.general.placeholder = flag;
            },
            None => return None,
        },
        Some(None) => {},
        None => return None,
    }
    match read_section(file, "player", "args") {
        Some(Some(value)) => match read_args(value) {
            Some(args) => {
                config.player.args = args;
            },
            None => return None,
        },
        Some(None) => {},
        None => return None,
    }
    match read_section(file, "log", "level") {
        Some(Some(value)) => {
            let level = match value.as_str() {
                Some(name) => parse_level(name),
                None => None,
            };
            match level {
                Some(level) => {
                    config.log.level = level;
                },
                None => return None,
            }
        },
        Some(None) => {},
        None => return None,
    }
    Some(config)
}

/// Whether `r` is the configuration that a text says, or what is wrong with it. Of a text that is no
/// TOML, that is the complaint of the TOML reader; of one that is TOML and no configuration, it is
/// what `explain` says of the text.
pub open spec fn reads_as<F: FnOnce(&str) -> String>(
    source: &str,
    explain: F,
    r: Result<Config, String>,
) -> bool {
    match document::toml_parse(source@) {
        Err(said) => r matches Err(text) && text@ == said,
        Ok(document) => if fits(document) {
            r matches Ok(config) && config@ == config_in(document)
        } else {
            r matches Err(text) && call_ensures(explain, (source,), text)
        },
    }
}

/// Whether `r` is the configuration that came of reading the file at `path`, or why there is none.
pub open spec fn loads_as<F: FnOnce(&str) -> String>(
    path: Seq<u8>,
    read: FileRead,
    explain: F,
    r: Result<Config, ConfigError>,
) -> bool {
    match read {
        FileRead::NotFound => r matches Ok(config) && config@ == standard(),
        FileRead::Failed(said) => r matches Err(ConfigError::Io { path: at, source }) && at@ == path
            && source == said,
        FileRead::Text(text) => exists|source: &str| #[trigger] source@ == text@ && match r {
            Ok(config) => reads_as(source, explain, Ok(config)),
            Err(ConfigError::Parse { path: at, source: said }) => at@ == path && reads_as(
                source,
                explain,
                Err(said),
            ),
            Err(_) => false,
        },
    }
}

// ---------------------------------------------------------------------------
// Loading it.
// ---------------------------------------------------------------------------

/// What came of reading the file.
#[derive(Debug, PartialEq, Eq)]
pub enum FileRead {
    Text(String),
    /// There is no such file.
    NotFound,
    /// The words of the operating system.
    Failed(String),
}

impl Config {
    /// Where the file is, from the value of `XDG_CONFIG_HOME` and the home directory: in the first
    /// where it is set, and else in the `.config` of the second.
    #[must_use]
    pub fn default_path_from(xdg: Option<Vec<u8>>, home: Option<Vec<u8>>) -> (r: Option<Vec<u8>>)
        ensures
            optional_bytes(r) == path_from(optional_bytes(xdg), optional_bytes(home)),
    {
        let base = match xdg {
            Some(base) => base,
            None => match home {
                Some(home) => join_path(home.as_slice(), ".config"),
                None => return None,
            },
        };
        let directory = join_path(base.as_slice(), "yttui");
        Some(join_path(directory.as_slice(), "config.toml"))
    }

    /// The configuration that a text says, or what is wrong with it. `explain` puts into words what
    /// is wrong with a text that is TOML and no configuration; it is asked of no other text. An
    /// empty text says what holds by default.
    pub fn from_text<F: FnOnce(&str) -> String>(source: &str, explain: F) -> (r: Result<
        Config,
        String,
    >)
        requires
            call_requires(explain, (source,)),
        ensures
            reads_as(source, explain, r),
            source@.len() == 0 ==> r is Ok && (r->Ok_0)@ == standard(),
    {
        match parse_document(source) {
            Ok(file) => {
                proof {
                    if source@.len() == 0 {
                        let empty = Map::<Seq<char>, Toml>::empty();
                        assert(document::toml_of(file) == Toml::Table(empty));
                        assert(!empty.dom().contains("general"@));
                        assert(!empty.dom().contains("player"@));
                        assert(!empty.dom().contains("log"@));
                        assert(fits(Toml::Table(empty)));
                    }
                }
                match read_document(&file) {
                    Some(config) => Ok(config),
                    None => Err(explain(source)),
                }
            },
            Err(text) => Err(text),
        }
    }

    /// The configuration that came of reading the file at `path`. One that is not there says what
    /// holds by default. `explain` puts into words what is wrong with a text that is TOML and no
    /// configuration.
    pub fn load<F: FnOnce(&str) -> String>(path: &[u8], read: FileRead, explain: F) -> (r: Result<
        Config,
        ConfigError,
    >)
        requires
            forall|source: &str| #[trigger] call_requires(explain, (source,)),
        ensures
            loads_as(path@, read, explain, r),
            read matches FileRead::Text(source) ==> source@.len() == 0 ==> r is Ok && (r->Ok_0)@
                == standard(),
    {
        match read {
            FileRead::NotFound => Ok(Config::default()),
            FileRead::Failed(source) => Err(ConfigError::Io { path: own_path(path), source }),
            FileRead::Text(text) => {
                let source = text.as_str();
                match Config::from_text(source, explain) {
                    Ok(config) => Ok(config),
                    Err(said) => Err(ConfigError::Parse { path: own_path(path), source: said }),
                }
            },
        }
    }

    /// The configuration that came of reading the file where it is by default, if it can be
    /// anywhere.
    pub fn load_from_default_path<F: FnOnce(&str) -> String>(
        place: Option<(Vec<u8>, FileRead)>,
        explain: F,
    ) -> (r: Result<Config, ConfigError>)
        requires
            forall|source: &str| #[trigger] call_requires(explain, (source,)),
        ensures
            place is None ==> r is Ok && (r->Ok_0)@ == standard(),
            place matches Some((path, read)) ==> loads_as(path@, read, explain, r),
    {
        match place {
            Some((path, read)) => Config::load(path.as_slice(), read, explain),
            None => Ok(Config::default()),
        }
    }
}

fn own_path(path: &[u8]) -> (r: Vec<u8>)
    ensures
        r@ == path@,
{
    let mut out: Vec<u8> = Vec::new();
    out.extend_from_slice(path);
    assert(out@ =~= path@);
    out
}

/// What the log says of a file that could not be used.
pub open spec fn load_failure(error: ConfigError) -> Seq<char> {
    "config load failed, using defaults: "@ + error.words() + ": "@ + error.cause()
}

/// The configuration to go on with, and what is to be logged as an error: a file that cannot be
/// used does not keep the program from starting.
pub fn config_or_default(loaded: Result<Config, ConfigError>) -> (r: (Config, Option<String>))
    ensures
        loaded matches Ok(config) ==> r.0 == config && r.1 is None,
        loaded matches Err(error) ==> r.0@ == standard() && (r.1 matches Some(message) && message@
            == load_failure(error)),
{
    match loaded {
        Ok(config) => (config, None),
        Err(error) => {
            let mut message = "config load failed, using defaults: ".to_owned();
            message.append(error.to_string().as_str());
            message.append(": ");
            message.append(error.source());
            (Config::default(), Some(message))
        },
    }
}

} // verus!
