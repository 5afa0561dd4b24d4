//! What holds of every configuration file.

use crate::config;
use crate::config::{ConfigError, ConfigView, FileRead, LogLevel};
use crate::document;
use crate::document::Toml;
use crate::text;
use vstd::prelude::*;

verus! {

broadcast use vstd::seq::group_seq_axioms;

/// A file with nothing in it says what holds by default.
pub proof fn law_an_empty_file_is_the_default()
    ensures
        config::fits(Toml::Table(Map::empty())),
        config::config_in(Toml::Table(Map::empty())) == config::standard(),
{
    let empty = Map::<Seq<char>, Toml>::empty();
    assert(!empty.dom().contains("general"@));
    assert(!empty.dom().contains("player"@));
    assert(!empty.dom().contains("log"@));
}

/// A section that is left out says what holds by default; so does a field that is left out of its
/// section.
pub proof fn law_what_is_left_out_is_the_default(file: Map<Seq<char>, Toml>)
    requires
        config::fits(Toml::Table(file)),
    ensures
        config::field_in(file, "general"@, "placeholder"@) is None ==> config::config_in(
            Toml::Table(file),
        ).placeholder == config::standard().placeholder,
        config::field_in(file, "player"@, "args"@) is None ==> config::config_in(
            Toml::Table(file),
        ).args == config::standard().args,
        config::field_in(file, "log"@, "level"@) is None ==> config::config_in(
            Toml::Table(file),
        ).level == config::standard().level,
{
}

/// A section that there is not makes a file one that cannot be used: a typing error does not pass
/// unseen.
pub proof fn law_unknown_sections_are_rejected(file: Map<Seq<char>, Toml>, key: Seq<char>)
    requires
        file.dom().contains(key),
        key != "general"@,
        key != "player"@,
        key != "log"@,
    ensures
        !config::fits(Toml::Table(file)),
{
    assert(!config::is_section(key));
}

/// A field that there is not makes a file one that cannot be used.
pub proof fn law_unknown_fields_are_rejected(
    file: Map<Seq<char>, Toml>,
    table: Map<Seq<char>, Toml>,
    key: Seq<char>,
)
    requires
        table.dom().contains(key),
    ensures
        file.dom().contains("general"@) && file["general"@] == Toml::Table(table) && key
            != "placeholder"@ ==> !config::fits(Toml::Table(file)),
        file.dom().contains("player"@) && file["player"@] == Toml::Table(table) && key != "args"@
            ==> !config::fits(Toml::Table(file)),
        file.dom().contains("log"@) && file["log"@] == Toml::Table(table) && key != "level"@
            ==> !config::fits(Toml::Table(file)),
{
    if config::fits(Toml::Table(file)) {
        assert(config::section_fits(file, "general"@, "placeholder"@));
        assert(config::section_fits(file, "player"@, "args"@));
        assert(config::section_fits(file, "log"@, "level"@));
    }
}

/// A file with the section `section` set to nothing but the field `field`.
pub open spec fn with_field(
    file: Map<Seq<char>, Toml>,
    section: Seq<char>,
    field: Seq<char>,
    value: Toml,
) -> Map<Seq<char>, Toml> {
    file.insert(section, Toml::Table(Map::empty().insert(field, value)))
}

/// Setting the placeholder overrides the placeholder and nothing else.
pub proof fn law_a_placeholder_overrides_only_itself(
    file: Map<Seq<char>, Toml>,
    placeholder: bool,
)
    requires
        config::fits(Toml::Table(file)),
    ensures
        ({
            let changed = with_field(file, "general"@, "placeholder"@, Toml::Flag(placeholder));
            &&& config::fits(Toml::Table(changed))
            &&& config::config_in(Toml::Table(changed)) == ConfigView {
                placeholder,
                ..config::config_in(Toml::Table(file))
            }
        }),
{
    lemma_the_other_sections_stay(file, "general"@, "placeholder"@, Toml::Flag(placeholder));
}

/// Setting the arguments overrides the arguments and nothing else.
pub proof fn law_arguments_override_only_themselves(file: Map<Seq<char>, Toml>, items: Seq<Toml>)
    requires
        config::fits(Toml::Table(file)),
        config::args_fit(Some(Toml::List(items))),
    ensures
        ({
            let changed = with_field(file, "player"@, "args"@, Toml::List(items));
            &&& config::fits(Toml::Table(changed))
            &&& config::config_in(Toml::Table(changed)) == ConfigView {
                args: config::texts_in(items),
                ..config::config_in(Toml::Table(file))
            }
        }),
{
    lemma_the_other_sections_stay(file, "player"@, "args"@, Toml::List(items));
}

/// Setting the level overrides the level and nothing else.
pub proof fn law_a_level_overrides_only_itself(
    file: Map<Seq<char>, Toml>,
    name: Seq<char>,
    level: LogLevel,
)
    requires
        config::fits(Toml::Table(file)),
        config::level_named(name) == Some(level),
    ensures
        ({
            let changed = with_field(file, "log"@, "level"@, Toml::Text(name));
            &&& config::fits(Toml::Table(changed))
            &&& config::config_in(Toml::Table(changed)) == ConfigView {
                level,
                ..config::config_in(Toml::Table(file))
            }
        }),
{
    lemma_the_other_sections_stay(file, "log"@, "level"@, Toml::Text(name));
}

proof fn lemma_the_other_sections_stay(
    file: Map<Seq<char>, Toml>,
    section: Seq<char>,
    field: Seq<char>,
    value: Toml,
)
    requires
        config::is_section(section),
        config::sections_fit(file),
    ensures
        ({
            let changed = with_field(file, section, field, value);
            &&& config::sections_fit(changed)
            &&& config::section_fits(changed, section, field)
            &&& config::field_in(changed, section, field) == Some(value)
            &&& forall|other: Seq<char>, name: Seq<char>|
                other != section ==> {
                    &&& #[trigger] config::field_in(changed, other, name) == config::field_in(
                        file,
                        other,
                        name,
                    )
                    &&& config::section_fits(changed, other, name) == config::section_fits(
                        file,
                        other,
                        name,
                    )
                }
        }),
        "general"@ != "player"@,
        "general"@ != "log"@,
        "player"@ != "log"@,
{
    reveal_strlit("general");
    reveal_strlit("player");
    reveal_strlit("log");
    assert("general"@.len() == 7 && "player"@.len() == 6 && "log"@.len() == 3);
    let changed = with_field(file, section, field, value);
    assert forall|key: Seq<char>| #[trigger] changed.dom().contains(key) implies config::is_section(
        key,
    ) by {
        if key != section {
            assert(file.dom().contains(key));
        }
    }
}

/// The file is in the directory that `XDG_CONFIG_HOME` names wherever that is set, and there is no
/// place for it only where neither that nor a home directory is known.
pub proof fn law_the_first_directory_wins(xdg: Option<Seq<u8>>, home: Option<Seq<u8>>)
    ensures
        xdg is Some ==> config::path_from(xdg, home) == config::path_from(xdg, None),
        config::path_from(xdg, home) is None <==> xdg is None && home is None,
{
}

// ---------------------------------------------------------------------------
// What a file can say.
// ---------------------------------------------------------------------------

/// A file that leaves everything out says this: no more than warnings are logged, and `mpv` gets no
/// arguments of the user's own.
pub proof fn law_what_holds_by_default()
    ensures
        !config::standard().placeholder,
        config::standard().args.len() == 0,
        config::standard().level == LogLevel::Warn,
{
}

/// Every level has its name in lower case, and nothing else names a level.
pub proof fn law_the_names_of_the_levels(name: Seq<char>)
    ensures
        config::level_named(name) == Some(LogLevel::Off) <==> name == "off"@,
        config::level_named(name) == Some(LogLevel::Error) <==> name == "error"@,
        config::level_named(name) == Some(LogLevel::Warn) <==> name == "warn"@,
        config::level_named(name) == Some(LogLevel::Info) <==> name == "info"@,
        config::level_named(name) == Some(LogLevel::Debug) <==> name == "debug"@,
        config::level_named(name) == Some(LogLevel::Trace) <==> name == "trace"@,
{
    reveal_strlit("off");
    reveal_strlit("error");
    reveal_strlit("warn");
    reveal_strlit("info");
    reveal_strlit("debug");
    reveal_strlit("trace");
    assert("off"@.len() == 3 && "warn"@.len() == 4 && "info"@.len() == 4);
    assert("error"@.len() == 5 && "debug"@.len() == 5 && "trace"@.len() == 5);
    assert("warn"@[0] == 'w' && "info"@[0] == 'i');
    assert("error"@[0] == 'e' && "debug"@[0] == 'd' && "trace"@[0] == 't');
}

/// The arguments in a file are the texts in its list, all of them and in order.
pub proof fn law_the_arguments_are_the_texts_in_the_list(
    file: Map<Seq<char>, Toml>,
    args: Seq<Seq<char>>,
)
    requires
        config::fits(Toml::Table(file)),
    ensures
        ({
            let items = args.map_values(|arg: Seq<char>| Toml::Text(arg));
            let changed = with_field(file, "player"@, "args"@, Toml::List(items));
            &&& config::fits(Toml::Table(changed))
            &&& config::config_in(Toml::Table(changed)).args == args
            &&& config::config_in(Toml::Table(changed)).placeholder == config::config_in(
                Toml::Table(file),
            ).placeholder
            &&& config::config_in(Toml::Table(changed)).level == config::config_in(
                Toml::Table(file),
            ).level
        }),
{
    let items = args.map_values(|arg: Seq<char>| Toml::Text(arg));
    assert forall|i: int| 0 <= i < items.len() implies #[trigger] items[i] is Text by {}
    assert(config::args_fit(Some(Toml::List(items))));
    law_arguments_override_only_themselves(file, items);
    assert(config::texts_in(items) =~= args);
}

/// A section with nothing in it says what holds by default and leaves the others as they are.
pub proof fn law_an_empty_section_says_nothing(file: Map<Seq<char>, Toml>, section: Seq<char>)
    requires
        config::fits(Toml::Table(file)),
        section == "general"@ || section == "player"@ || section == "log"@,
    ensures
        ({
            let changed = file.insert(section, Toml::Table(Map::empty()));
            let before = config::config_in(Toml::Table(file));
            let after = config::config_in(Toml::Table(changed));
            &&& config::fits(Toml::Table(changed))
            &&& after.placeholder == if section == "general"@ {
                false
            } else {
                before.placeholder
            }
            &&& after.args == if section == "player"@ {
                Seq::empty()
            } else {
                before.args
            }
            &&& after.level == if section == "log"@ {
                LogLevel::Warn
            } else {
                before.level
            }
        }),
{
    reveal_strlit("general");
    reveal_strlit("player");
    reveal_strlit("log");
    assert("general"@.len() == 7 && "player"@.len() == 6 && "log"@.len() == 3);
    let empty = Map::<Seq<char>, Toml>::empty();
    assert(!empty.dom().contains("placeholder"@));
    assert(!empty.dom().contains("args"@));
    assert(!empty.dom().contains("level"@));
    let changed = file.insert(section, Toml::Table(empty));
    assert forall|key: Seq<char>| #[trigger] changed.dom().contains(key) implies config::is_section(
        key,
    ) by {
        if key != section {
            assert(file.dom().contains(key));
        }
    }
    assert(config::section_fits(file, "general"@, "placeholder"@));
    assert(config::section_fits(file, "player"@, "args"@));
    assert(config::section_fits(file, "log"@, "level"@));
    assert(config::section_fits(changed, "general"@, "placeholder"@));
    assert(config::section_fits(changed, "player"@, "args"@));
    assert(config::section_fits(changed, "log"@, "level"@));
}

/// A value of another kind than its field has makes a file one that cannot be used, and so does a
/// section that is neither a table nor a list, and a document that is no table.
pub proof fn law_values_of_another_kind_are_rejected(
    file: Map<Seq<char>, Toml>,
    value: Toml,
    document: Toml,
)
    ensures
        !(value is Flag) ==> !config::fits(
            Toml::Table(with_field(file, "general"@, "placeholder"@, value)),
        ),
        !(value is List) ==> !config::fits(Toml::Table(with_field(file, "player"@, "args"@, value))),
        value matches Toml::List(items) ==> (exists|i: int|
            0 <= i < items.len() && !(#[trigger] items[i] is Text)) ==> !config::fits(
            Toml::Table(with_field(file, "player"@, "args"@, value)),
        ),
        !(value is Text) ==> !config::fits(Toml::Table(with_field(file, "log"@, "level"@, value))),
        value matches Toml::Text(name) ==> config::level_named(name) is None ==> !config::fits(
            Toml::Table(with_field(file, "log"@, "level"@, value)),
        ),
        !(value is Table || value is List) ==> !config::fits(
            Toml::Table(file.insert("general"@, value)),
        ) && !config::fits(Toml::Table(file.insert("player"@, value))) && !config::fits(
            Toml::Table(file.insert("log"@, value)),
        ),
        !(document is Table) ==> !config::fits(document),
{
    let general = with_field(file, "general"@, "placeholder"@, value);
    assert(config::field_in(general, "general"@, "placeholder"@) == Some(value));
    let player = with_field(file, "player"@, "args"@, value);
    assert(config::field_in(player, "player"@, "args"@) == Some(value));
    let log = with_field(file, "log"@, "level"@, value);
    assert(config::field_in(log, "log"@, "level"@) == Some(value));
    if !(value is Table || value is List) {
        assert(!config::section_fits(
            file.insert("general"@, value),
            "general"@,
            "placeholder"@,
        ));
        assert(!config::section_fits(file.insert("player"@, value), "player"@, "args"@));
        assert(!config::section_fits(file.insert("log"@, value), "log"@, "level"@));
    }
}

/// What a file says is a matter of its text alone: text that is a configuration is that
/// configuration, and text that is none is an error at the path of the file.
pub proof fn law_a_file_is_its_text<F: FnOnce(&str) -> String>(
    path: Seq<u8>,
    read: FileRead,
    explain: F,
    r: Result<config::Config, ConfigError>,
)
    requires
        config::loads_as(path, read, explain, r),
    ensures
        read is NotFound ==> r is Ok && !(r->Ok_0).general.placeholder && (
        r->Ok_0).player.args@.len() == 0 && (r->Ok_0).log.level == LogLevel::Warn,
        read matches FileRead::Failed(said) ==> (r matches Err(ConfigError::Io { path: at, source })
            && at@ == path && source == said),
        read matches FileRead::Text(text) ==> match document::toml_parse(text@) {
            Ok(document) => if config::fits(document) {
                r is Ok && (r->Ok_0)@ == config::config_in(document)
            } else {
                r matches Err(ConfigError::Parse { path: at, .. }) && at@ == path
            },
            Err(said) => r matches Err(ConfigError::Parse { path: at, source }) && at@ == path
                && source@ == said,
        },
{
    if read is NotFound {
        assert(text::texts((r->Ok_0).player.args@).len() == (r->Ok_0).player.args@.len());
    }
}

/// A path in a directory is the directory, a slash where there is none at its end, and the name; so
/// a name that stands in a directory stands in the directory that is written with a slash.
pub proof fn law_a_path_is_a_directory_and_a_name(base: Seq<u8>, name: Seq<char>)
    ensures
        base.len() > 0 && base.last() == 47 ==> config::path_in(base, name) == base
            + vstd::utf8::encode_utf8(name),
        base.len() > 0 && base.last() != 47 ==> config::path_in(base, name) == config::path_in(
            base + seq![47u8],
            name,
        ),
        base.len() == 0 ==> config::path_in(base, name) == vstd::utf8::encode_utf8(name),
{
    assert(base + seq![47u8] =~= base.push(47u8));
    assert(Seq::<u8>::empty() + vstd::utf8::encode_utf8(name) =~= vstd::utf8::encode_utf8(name));
    if base.len() == 0 {
        assert(base =~= Seq::empty());
    }
}

/// The file stands in `yttui` in the directory for configurations, and that is the `.config` of the
/// home directory where no other is named.
pub proof fn law_where_the_file_is(xdg: Seq<u8>, home: Seq<u8>)
    ensures
        config::path_from(Some(xdg), None) == Some(
            config::path_in(config::path_in(xdg, "yttui"@), "config.toml"@),
        ),
        config::path_from(None, Some(home)) == config::path_from(
            Some(config::path_in(home, ".config"@)),
            None,
        ),
{
}

/// A file that cannot be used is reported with where it is and with its cause, whatever they are.
pub proof fn law_a_file_that_cannot_be_used_is_reported(error: ConfigError)
    ensures
        config::load_failure(error) == "config load failed, using defaults: "@ + error.words() + ": "@
            + error.cause(),
        error matches ConfigError::Io { path, source } ==> error.words() == "reading config file "@
            + text::lossy(path@) && error.cause() == source@,
        error matches ConfigError::Parse { path, source } ==> error.words()
            == "parsing config file "@ + text::lossy(path@) && error.cause() == source@,
{
}

/// A section can be written as a list too, whose first item is then its field: that says the same as
/// the section with that field, whatever else is in the list.
pub proof fn law_a_section_can_be_a_list(
    file: Map<Seq<char>, Toml>,
    section: Seq<char>,
    field: Seq<char>,
    items: Seq<Toml>,
)
    requires
        section == "general"@ && field == "placeholder"@ || section == "player"@ && field == "args"@
            || section == "log"@ && field == "level"@,
        items.len() > 0,
        config::sections_fit(file),
    ensures
        ({
            let listed = Toml::Table(file.insert(section, Toml::List(items)));
            let named = Toml::Table(with_field(file, section, field, items[0]));
            &&& config::fits(listed) <==> config::fits(named)
            &&& config::fits(listed) ==> config::config_in(listed) == config::config_in(named)
        }),
{
    reveal_strlit("general");
    reveal_strlit("player");
    reveal_strlit("log");
    assert("general"@.len() == 7 && "player"@.len() == 6 && "log"@.len() == 3);
    let listed = file.insert(section, Toml::List(items));
    let named = with_field(file, section, field, items[0]);
    assert(listed.dom() =~= named.dom());
    assert(config::sections_fit(listed) == config::sections_fit(named));
    assert(config::field_in(listed, section, field) == config::field_in(named, section, field));
    assert forall|other: Seq<char>, name: Seq<char>| other != section implies
        #[trigger] config::field_in(listed, other, name) == config::field_in(named, other, name)
        && config::section_fits(listed, other, name) == config::section_fits(named, other, name) by {}
    assert(config::section_fits(listed, section, field));
    assert(config::section_fits(named, section, field));
    assert(config::field_in(listed, "general"@, "placeholder"@) == config::field_in(
        named,
        "general"@,
        "placeholder"@,
    ));
    assert(config::field_in(listed, "player"@, "args"@) == config::field_in(
        named,
        "player"@,
        "args"@,
    ));
    assert(config::field_in(listed, "log"@, "level"@) == config::field_in(named, "log"@, "level"@));
}

} // verus!
