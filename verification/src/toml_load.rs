//! Loading a `Config` from the text of a configuration file. The TOML
//! parsing itself is the `toml` crate's work, reached through trusted items;
//! picking the three fields out of the parsed table, and rejecting a
//! malformed one, is verified logic.

use vstd::prelude::*;

use crate::config::Config;
use crate::config::ConfigError;
use crate::config::default_config;
use crate::config::default_config_text;
use crate::config::spec_default_cert_dir;
use crate::config::spec_default_config_text;
use crate::config::spec_default_home;
use crate::text::str_eq;

verus! {

#[verifier::external_type_specification]
#[verifier::external_body]
#[verifier::reject_recursive_types(K)]
#[verifier::reject_recursive_types(V)]
pub struct ExTomlMap<K, V>(toml::map::Map<K, V>);

#[verifier::external_type_specification]
#[verifier::external_body]
pub struct ExTomlValue(toml::Value);

/// What a parsed TOML table holds: its key-to-value map.
pub uninterp spec fn table_model(t: toml::Table) -> Map<Seq<char>, toml::Value>;

/// What `toml::Value::as_str` returns for a value: the string payload when
/// the value is a string, `None` otherwise.
pub uninterp spec fn value_str(v: toml::Value) -> Option<Seq<char>>;

/// What `toml::Value::as_table` returns for a value: the table payload when
/// the value is a table, `None` otherwise.
pub uninterp spec fn value_table(v: toml::Value) -> Option<toml::Table>;

/// What the `toml` crate's parser makes of a document: its top-level table,
/// or `None` for text that is not valid TOML. The parse is a function of
/// the text alone; which documents parse is the parser's own business, so
/// the outcome carries a name rather than a definition.
pub uninterp spec fn spec_parse_table(s: Seq<char>) -> Option<toml::Table>;

/// Relies on `str::parse::<toml::Table>` (the `toml` crate's parser): the
/// document's top-level table exactly when the text is valid TOML, or the
/// parse error's message.
#[verifier::external_body]
fn parse_toml_table(s: &str) -> (r: Result<toml::Table, String>)
    ensures
        match r {
            Ok(t) => spec_parse_table(s@) == Some(t),
            Err(_) => spec_parse_table(s@) is None,
        },
{
    match s.parse::<toml::Table>() {
        Ok(t) => Ok(t),
        Err(e) => Err(e.to_string()),
    }
}

/// The entries of `es` are entries of `tm`, with distinct keys, and every
/// key of `tm` occurs among them.
pub open spec fn entries_model(
    es: Seq<(String, toml::Value)>,
    tm: Map<Seq<char>, toml::Value>,
) -> bool {
    &&& forall|i: int|
        #![trigger es[i].0]
        0 <= i < es.len() ==> tm.contains_key(es[i].0@) && tm[es[i].0@] == es[i].1
    &&& forall|i: int, j: int|
        #![trigger es[i].0, es[j].0]
        0 <= i < j < es.len() ==> es[i].0@ != es[j].0@
    &&& forall|k: Seq<char>|
        #![trigger tm.contains_key(k)]
        tm.contains_key(k) ==> exists|i: int| #![trigger es[i].0] 0 <= i < es.len() && es[i].0@ == k
}

/// Relies on `toml::map::Map::iter` and the clones of key and value: the
/// table's pairs, each key of the table exactly once, each paired with the
/// value the table holds for it.
#[verifier::external_body]
fn table_entries(t: &toml::Table) -> (r: Vec<(String, toml::Value)>)
    ensures
        entries_model(r@, table_model(*t)),
{
    t.iter().map(|(k, v)| (k.clone(), v.clone())).collect()
}

/// Relies on `toml::Value::as_str`: the string payload of a string value.
#[verifier::external_body]
fn value_as_str(v: &toml::Value) -> (r: Option<String>)
    ensures
        match r {
            Some(s) => value_str(*v) == Some(s@),
            None => value_str(*v) is None,
        },
{
    v.as_str().map(|s| s.to_string())
}

/// Relies on `toml::Value::as_table`: the table payload of a table value.
#[verifier::external_body]
fn value_as_table<'a>(v: &'a toml::Value) -> (r: Option<&'a toml::Table>)
    ensures
        match r {
            Some(t) => value_table(*v) == Some(*t),
            None => value_table(*v) is None,
        },
{
    v.as_table()
}

/// The key `key` is present in `tm` and holds a string.
pub open spec fn has_str_field(tm: Map<Seq<char>, toml::Value>, key: Seq<char>) -> bool {
    tm.contains_key(key) && value_str(tm[key]) is Some
}

/// The key `key` is present in `tm` and holds a table.
pub open spec fn has_table_field(tm: Map<Seq<char>, toml::Value>, key: Seq<char>) -> bool {
    tm.contains_key(key) && value_table(tm[key]) is Some
}

/// The pairs `m` are exactly the entries of `sub`, each value read as a
/// string.
pub open spec fn mapping_matches(
    m: Seq<(Seq<char>, Seq<char>)>,
    sub: Map<Seq<char>, toml::Value>,
) -> bool {
    &&& forall|i: int|
        #![trigger m[i].0]
        0 <= i < m.len() ==> sub.contains_key(m[i].0) && value_str(sub[m[i].0]) == Some(m[i].1)
    &&& forall|k: Seq<char>|
        #![trigger sub.contains_key(k)]
        sub.contains_key(k) ==> exists|i: int| #![trigger m[i].0] 0 <= i < m.len() && m[i].0 == k
}

/// The value under `key` among `entries`, if any.
fn lookup<'a>(
    entries: &'a Vec<(String, toml::Value)>,
    key: &str,
    Ghost(tm): Ghost<Map<Seq<char>, toml::Value>>,
) -> (r: Option<&'a toml::Value>)
    requires
        entries_model(entries@, tm),
    ensures
        match r {
            Some(v) => tm.contains_key(key@) && tm[key@] == *v,
            None => !tm.contains_key(key@),
        },
{
    let n = entries.len();
    let mut i: usize = 0;
    while i < n
        invariant
            entries_model(entries@, tm),
            n == entries@.len(),
            i <= n,
            forall|j: int| #![trigger entries@[j].0] 0 <= j < i ==> entries@[j].0@ != key@,
        decreases n - i,
    {
        if str_eq(entries[i].0.as_str(), key) {
            return Some(&entries[i].1);
        }
        i += 1;
    }
    proof {
        if tm.contains_key(key@) {
            let j = choose|j: int|
                #![trigger entries@[j].0]
                0 <= j < entries@.len() && entries@[j].0@ == key@;
            assert(entries@[j].0@ != key@);
        }
    }
    None
}

/// What extracting a configuration from a parsed table with model `tm` must
/// yield: the three fields when the table fits the schema, and otherwise
/// exactly the error naming the first field that does not fit. A parse
/// error never arises here.
pub open spec fn extraction_matches(r: Result<Config, ConfigError>, tm: Map<Seq<char>, toml::Value>) -> bool {
    match r {
        Ok(c) => {
            &&& c@.wf()
            &&& has_str_field(tm, "home"@)
            &&& c@.home == value_str(tm["home"@]).unwrap()
            &&& has_str_field(tm, "acme_redirect_configs"@)
            &&& c@.acme_redirect_configs == value_str(tm["acme_redirect_configs"@]).unwrap()
            &&& has_table_field(tm, "map"@)
            &&& mapping_matches(c@.mapping, table_model(value_table(tm["map"@]).unwrap()))
        },
        Err(e) => match e {
            ConfigError::BadHome => !has_str_field(tm, "home"@),
            ConfigError::BadCertDir => has_str_field(tm, "home"@) && !has_str_field(
                tm,
                "acme_redirect_configs"@,
            ),
            ConfigError::BadMapping => has_str_field(tm, "home"@) && has_str_field(
                tm,
                "acme_redirect_configs"@,
            ) && !has_table_field(tm, "map"@),
            ConfigError::BadMappingEntry(key) => {
                &&& has_str_field(tm, "home"@)
                &&& has_str_field(tm, "acme_redirect_configs"@)
                &&& has_table_field(tm, "map"@)
                &&& table_model(value_table(tm["map"@]).unwrap()).contains_key(key@)
                &&& value_str(table_model(value_table(tm["map"@]).unwrap())[key@]) is None
            },
            ConfigError::Unparsable(_) => false,
        },
    }
}

/// Picks the three configuration fields out of a parsed table; exactly the
/// tables with string `home`, string `acme_redirect_configs` and a `map`
/// table of strings are accepted. Keys the schema does not name are
/// ignored.
pub fn config_from_table(t: &toml::Table) -> (r: Result<Config, ConfigError>)
    ensures
        extraction_matches(r, table_model(*t)),
{
    let ghost tm = table_model(*t);
    let entries = table_entries(t);
    let home: String = match lookup(&entries, "home", Ghost(tm)) {
        Some(v) => match value_as_str(v) {
            Some(s) => s,
            None => {
                return Err(ConfigError::BadHome);
            },
        },
        None => {
            return Err(ConfigError::BadHome);
        },
    };
    let cert_dir: String = match lookup(&entries, "acme_redirect_configs", Ghost(tm)) {
        Some(v) => match value_as_str(v) {
            Some(s) => s,
            None => {
                return Err(ConfigError::BadCertDir);
            },
        },
        None => {
            return Err(ConfigError::BadCertDir);
        },
    };
    let map_table: &toml::Table = match lookup(&entries, "map", Ghost(tm)) {
        Some(v) => match value_as_table(v) {
            Some(sub_t) => sub_t,
            None => {
                return Err(ConfigError::BadMapping);
            },
        },
        None => {
            return Err(ConfigError::BadMapping);
        },
    };
    let ghost sub = table_model(*map_table);
    let sub_entries = table_entries(map_table);
    let n = sub_entries.len();
    let mut mapping: Vec<(String, String)> = Vec::new();
    let mut i: usize = 0;
    while i < n
        invariant
            tm == table_model(*t),
            has_str_field(tm, "home"@),
            value_str(tm["home"@]) == Some(home@),
            has_str_field(tm, "acme_redirect_configs"@),
            value_str(tm["acme_redirect_configs"@]) == Some(cert_dir@),
            has_table_field(tm, "map"@),
            value_table(tm["map"@]) == Some(*map_table),
            sub == table_model(*map_table),
            entries_model(sub_entries@, sub),
            n == sub_entries@.len(),
            i <= n,
            mapping@.len() == i,
            forall|j: int|
                #![trigger mapping@[j].0]
                0 <= j < i ==> mapping@[j].0@ == sub_entries@[j].0@ && value_str(
                    sub[mapping@[j].0@],
                ) == Some(mapping@[j].1@),
        decreases n - i,
    {
        let key = sub_entries[i].0.clone();
        match value_as_str(&sub_entries[i].1) {
            Some(s) => {
                mapping.push((key, s));
            },
            None => {
                proof {
                    assert(sub.contains_key(sub_entries@[i as int].0@));
                }
                return Err(ConfigError::BadMappingEntry(key));
            },
        }
        proof {
            assert(sub.contains_key(sub_entries@[i as int].0@));
            assert(mapping@[i as int].0@ == sub_entries@[i as int].0@);
        }
        i += 1;
    }
    let c = Config { home, acme_redirect_configs: cert_dir, mapping };
    proof {
        let m = c@.mapping;
        assert forall|j: int| #![trigger m[j].0] 0 <= j < m.len() implies sub.contains_key(m[j].0)
            && value_str(sub[m[j].0]) == Some(m[j].1) by {
            assert(m[j] == (mapping@[j].0@, mapping@[j].1@));
        }
        assert forall|k: Seq<char>| #[trigger] sub.contains_key(k) implies exists|j: int|
            #![trigger m[j].0]
            0 <= j < m.len() && m[j].0 == k by {
            let j = choose|j: int|
                #![trigger sub_entries@[j].0]
                0 <= j < sub_entries@.len() && sub_entries@[j].0@ == k;
            assert(m[j] == (mapping@[j].0@, mapping@[j].1@));
            assert(m[j].0 == k);
        }
        assert forall|i1: int, j1: int| 0 <= i1 < j1 < m.len() implies m[i1].0 != m[j1].0 by {
            assert(m[i1] == (mapping@[i1].0@, mapping@[i1].1@));
            assert(m[j1] == (mapping@[j1].0@, mapping@[j1].1@));
            assert(sub_entries@[i1].0@ != sub_entries@[j1].0@);
        }
    }
    Ok(c)
}

/// Loads the configuration from what was found at the configuration path:
/// `None` when no file exists there, `Some` with the file's text otherwise.
/// On a first run the result carries, besides the default configuration,
/// the document to persist at that path; a loaded file is never written
/// back. Text that is not valid TOML yields exactly the `Unparsable`
/// error; text that parses yields exactly what extracting the schema from
/// the parsed table yields.
pub fn read_config(contents: Option<&str>) -> (r: Result<(Config, Option<String>), ConfigError>)
    ensures
        contents is None ==> (r matches Ok((c, w)) && (c@.home == spec_default_home()
            && c@.acme_redirect_configs == spec_default_cert_dir() && c@.mapping.len() == 0
            && (w matches Some(t) && t@ == spec_default_config_text()))),
        contents is Some ==> (r matches Ok((c, w)) ==> (w is None && c@.wf())),
        contents matches Some(s) ==> (match spec_parse_table(s@) {
            Some(t) => (match r {
                Ok((c, w)) => w is None && extraction_matches(Ok(c), table_model(t)),
                Err(e) => extraction_matches(Err(e), table_model(t)),
            }),
            None => (r matches Err(e) && (e matches ConfigError::Unparsable(_))),
        }),
{
    match contents {
        None => Ok((default_config(), Some(default_config_text()))),
        Some(s) => match parse_toml_table(s) {
            Ok(t) => match config_from_table(&t) {
                Ok(c) => Ok((c, None)),
                Err(e) => Err(e),
            },
            Err(msg) => Err(ConfigError::Unparsable(msg)),
        },
    }
}

} // verus!
