use serde::de::{Deserialize, Deserializer, Error, MapAccess, Visitor};
use std::fmt;
use yttui::config::{
    config_or_default, join_path, parse_level, read_document, Config, ConfigError, FileRead, GeneralConfig, LogLevel,
};

const PATH: &[u8] = b"/home/user/.config/yttui/config.toml";

const SECTIONS: &[&str] = &["general", "player", "log"];
const FIELDS: [&[&str]; 3] = [&["placeholder"], &["args"], &["level"]];
const LEVELS: &[&str] = &["off", "error", "warn", "info", "debug", "trace"];

/// A configuration file of which only what is wrong with it matters.
struct Checked;

/// One of its sections, by its place among [`SECTIONS`].
struct CheckedSection<const PLACE: usize>;

impl<'de> Visitor<'de> for Checked {
    type Value = Checked;

    fn expecting(&self, f: &mut fmt::Formatter) -> fmt::Result {
        f.write_str("struct Config")
    }

    fn visit_map<A: MapAccess<'de>>(self, mut sections: A) -> Result<Checked, A::Error> {
        while let Some(key) = sections.next_key::<String>()? {
            match key.as_str() {
                "general" => drop(sections.next_value::<CheckedSection<0>>()?),
                "player" => drop(sections.next_value::<CheckedSection<1>>()?),
                "log" => drop(sections.next_value::<CheckedSection<2>>()?),
                other => return Err(A::Error::unknown_field(other, SECTIONS)),
            }
        }
        Ok(Checked)
    }
}

impl<'de, const PLACE: usize> Visitor<'de> for CheckedSection<PLACE> {
    type Value = CheckedSection<PLACE>;

    fn expecting(&self, f: &mut fmt::Formatter) -> fmt::Result {
        f.write_str("a section")
    }

    fn visit_map<A: MapAccess<'de>>(self, mut fields: A) -> Result<Self::Value, A::Error> {
        while let Some(key) = fields.next_key::<String>()? {
            if key != FIELDS[PLACE][0] {
                return Err(A::Error::unknown_field(&key, FIELDS[PLACE]));
            }
            match PLACE {
                0 => drop(fields.next_value::<bool>()?),
                1 => drop(fields.next_value::<Vec<String>>()?),
                _ => {
                    let level = fields.next_value::<String>()?;
                    if !LEVELS.contains(&level.as_str()) {
                        return Err(A::Error::unknown_variant(&level, LEVELS));
                    }
                }
            }
        }
        Ok(self)
    }
}

impl<'de> Deserialize<'de> for Checked {
    fn deserialize<D: Deserializer<'de>>(from: D) -> Result<Checked, D::Error> {
        from.deserialize_struct("Config", SECTIONS, Checked)
    }
}

impl<'de, const PLACE: usize> Deserialize<'de> for CheckedSection<PLACE> {
    fn deserialize<D: Deserializer<'de>>(from: D) -> Result<Self, D::Error> {
        from.deserialize_struct("Section", FIELDS[PLACE], CheckedSection::<PLACE>)
    }
}

fn explain(text: &str) -> String {
    match toml::from_str::<Checked>(text) {
        Ok(_) => panic!("asked of a configuration"),
        Err(e) => e.to_string(),
    }
}

fn load(body: &str) -> Result<Config, ConfigError> {
    Config::load(PATH, FileRead::Text(body.to_string()), explain)
}

#[test]
fn missing_file_returns_default() {
    let cfg = Config::load(b"does-not-exist.toml", FileRead::NotFound, explain).unwrap();
    assert_eq!(cfg, Config::default());
}

#[test]
fn empty_file_returns_default() {
    let cfg = load("").unwrap();
    assert_eq!(cfg, Config::default());
}

#[test]
fn partial_toml_only_overrides_specified_fields() {
    let cfg = load("[general]\nplaceholder = true\n").unwrap();
    assert!(cfg.general.placeholder);
    assert_eq!(cfg.player, Config::default().player);
    assert_eq!(cfg.log, Config::default().log);
    let cfg = load("[player]\nargs = [\"-x\"]\n").unwrap();
    assert_eq!(cfg.player.args, vec!["-x"]);
    assert_eq!((cfg.general, cfg.log), (Config::default().general, Config::default().log));
    let cfg = load("[log]\nlevel = \"trace\"\n").unwrap();
    assert_eq!(cfg.log.level, LogLevel::Trace);
    assert_eq!((cfg.general, cfg.player), (Config::default().general, Config::default().player));
}

#[test]
fn partial_toml_with_empty_section_keeps_section_defaults() {
    let cfg = load("[general]\n").unwrap();
    assert_eq!(cfg, Config::default());
}

#[test]
fn directory_in_place_of_file_returns_io_error() {
    let err = Config::load(PATH, FileRead::Failed("Is a directory".to_string()), explain).unwrap_err();
    assert!(matches!(err, ConfigError::Io { .. }), "expected Io, got {err:?}");
    assert_eq!(err.to_string(), "reading config file /home/user/.config/yttui/config.toml");
    assert_eq!(err.source(), "Is a directory");
}

#[test]
fn malformed_toml_returns_parse_error_not_panic() {
    let err = load("this is = not = valid = toml\n").unwrap_err();
    assert!(matches!(err, ConfigError::Parse { .. }), "expected Parse, got {err:?}");
    assert_eq!(err.to_string(), "parsing config file /home/user/.config/yttui/config.toml");
    assert!(!err.source().is_empty());
}

#[test]
fn unknown_field_is_rejected_so_typos_do_not_silently_no_op() {
    let err = load("[general]\nplacehlder = true\n").unwrap_err();
    assert!(matches!(err, ConfigError::Parse { .. }));
    assert_eq!(err.source(), explain("[general]\nplacehlder = true\n"));
    assert!(err.source().starts_with("TOML parse error at line "), "{err:?}");
    assert!(err.source().contains("unknown field `placehlder`, expected `placeholder`"), "{err:?}");
}

#[test]
fn unknown_sections_are_rejected() {
    let err = load("[generl]\n").unwrap_err();
    assert!(
        err.source().contains("unknown field `generl`, expected one of `general`, `player`, `log`"),
        "{err:?}"
    );
}

#[test]
fn default_path_ends_with_yttui_config_toml() {
    for (xdg, home) in [(Some("/x"), Some("/h")), (Some("/x/"), None), (None, Some("/h"))] {
        let xdg = xdg.map(|p: &str| p.as_bytes().to_vec());
        let home = home.map(|p: &str| p.as_bytes().to_vec());
        let p = Config::default_path_from(xdg, home).unwrap();
        assert!(p.ends_with(b"/yttui/config.toml"), "got {p:?}");
    }
}

#[test]
fn default_path_honors_xdg_config_home_when_set() {
    let path = Config::default_path_from(Some(b"/tmp/some-xdg".to_vec()), Some(b"/home/user".to_vec())).unwrap();
    assert_eq!(path, b"/tmp/some-xdg/yttui/config.toml".to_vec());
}

#[test]
fn default_path_falls_back_to_home_dot_config_when_xdg_unset() {
    let path = Config::default_path_from(None, Some(b"/home/user".to_vec())).unwrap();
    assert_eq!(path, b"/home/user/.config/yttui/config.toml".to_vec());
}

#[test]
fn default_path_returns_none_when_neither_xdg_nor_home() {
    assert!(Config::default_path_from(None, None).is_none());
}

#[test]
fn paths_are_joined_with_one_slash() {
    assert_eq!(join_path(b"/a", "b"), b"/a/b".to_vec());
    assert_eq!(join_path(b"/a/", "b"), b"/a/b".to_vec());
    assert_eq!(join_path(b"/", "b"), b"/b".to_vec());
    assert_eq!(join_path(b"", "b"), b"b".to_vec());
}

#[test]
fn the_documented_example_loads() {
    let cfg = load(
        "[player]\nargs = [\"--save-position-on-quit\", \"--no-osc\"]\n\n[log]\nlevel = \"info\"\n",
    )
    .unwrap();
    assert_eq!(cfg.player.args, vec!["--save-position-on-quit", "--no-osc"]);
    assert_eq!(cfg.log.level, LogLevel::Info);
    assert!(!cfg.general.placeholder);
}

#[test]
fn the_default_logs_warnings_and_adds_no_arguments() {
    let cfg = Config::default();
    assert_eq!(cfg.log.level, LogLevel::Warn);
    assert!(cfg.player.args.is_empty());
    assert!(!cfg.general.placeholder);
}

#[test]
fn every_level_has_its_name() {
    assert_eq!(parse_level("off"), Some(LogLevel::Off));
    assert_eq!(parse_level("error"), Some(LogLevel::Error));
    assert_eq!(parse_level("warn"), Some(LogLevel::Warn));
    assert_eq!(parse_level("info"), Some(LogLevel::Info));
    assert_eq!(parse_level("debug"), Some(LogLevel::Debug));
    assert_eq!(parse_level("trace"), Some(LogLevel::Trace));
    assert_eq!(parse_level("Warn"), None);
    assert_eq!(parse_level(""), None);
}

#[test]
fn values_of_another_kind_are_rejected() {
    let cases = [
        ("[general]\nplaceholder = 1\n", "invalid type: integer `1`, expected a boolean"),
        ("[player]\nargs = \"-x\"\n", "invalid type: string \"-x\", expected a sequence"),
        ("[player]\nargs = [\"-x\", 1]\n", "invalid type: integer `1`, expected a string"),
        (
            "[log]\nlevel = \"loud\"\n",
            "unknown variant `loud`, expected one of `off`, `error`, `warn`, `info`, `debug`, `trace`",
        ),
        ("general = 3\n", "invalid type: integer `3`, expected a section"),
    ];
    for (body, words) in cases {
        let err = load(body).unwrap_err();
        assert_eq!(err.source(), explain(body));
        assert!(err.source().contains(words), "{err:?}");
    }
}

#[test]
fn the_words_are_asked_for_only_where_they_are_needed() {
    let unasked = |_: &str| -> String { panic!("asked") };
    assert!(Config::from_text("[general]\nplaceholder = true\n", unasked).unwrap().general.placeholder);
    assert!(Config::from_text("= 1", unasked).unwrap_err().contains("TOML parse error"));
    assert_eq!(Config::from_text("x = 1", |text| format!("<{text}>")), Err("<x = 1>".to_string()));
}

#[test]
fn a_section_can_be_a_list_of_its_fields() {
    assert!(load("general = [true]\n").unwrap().general.placeholder);
    assert_eq!(load("general = []\n").unwrap(), Config::default());
}

#[test]
fn a_document_is_read_from_a_value() {
    let mut log = toml::Table::new();
    log.insert("level".to_string(), toml::Value::String("trace".to_string()));
    let mut file = toml::Table::new();
    file.insert("log".to_string(), toml::Value::Table(log));
    assert_eq!(read_document(&toml::Value::Table(file)).unwrap().log.level, LogLevel::Trace);
    assert_eq!(read_document(&toml::Value::Integer(3)), None);
}

#[test]
fn no_place_for_a_file_is_the_default() {
    assert_eq!(Config::load_from_default_path(None, explain), Ok(Config::default()));
    let place = (PATH.to_vec(), FileRead::Text("[log]\nlevel = \"off\"\n".to_string()));
    assert_eq!(Config::load_from_default_path(Some(place), explain).unwrap().log.level, LogLevel::Off);
}

#[test]
fn a_file_that_cannot_be_used_is_logged() {
    let (cfg, message) = config_or_default(Config::load(b"/c\xff", FileRead::Failed("denied".to_string()), explain));
    assert_eq!(cfg, Config::default());
    assert_eq!(
        message.as_deref(),
        Some("config load failed, using defaults: reading config file /c\u{fffd}: denied")
    );
    let (cfg, message) = config_or_default(load("[general]\nplaceholder = true\n"));
    assert!(cfg.general.placeholder);
    assert_eq!(message, None);
}

#[test]
fn a_copy_says_the_same() {
    let cfg = load("[general]\nplaceholder = true\n[player]\nargs = [\"-x\"]\n[log]\nlevel = \"debug\"\n").unwrap();
    assert_eq!(cfg.clone(), cfg);
    assert_eq!(cfg.general.clone(), cfg.general);
    assert_eq!(GeneralConfig::default(), Config::default().general);
}
