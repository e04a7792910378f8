//! Application configuration assembled from environment-style entries.
//!
//! The process edge collects its key/value pairs (for instance the
//! process environment) and hands them in as plain strings; this module
//! does the whole mapping: keys are matched case-insensitively against
//! the `SECTION__FIELD` names below, numeric fields are parsed as plain
//! decimal numbers, and the first missing or unparseable field, in
//! declaration order, decides the error.

use vstd::prelude::*;
use vstd::string::*;
use vstd::utf8::encode_utf8;

verus! {

/// ASCII upper-case folding of one byte; other bytes stay themselves.
pub open spec fn upper_byte(b: u8) -> u8 {
    if 97 <= b && b <= 122 {
        (b - 32) as u8
    } else {
        b
    }
}

/// A key sequence folded to upper case for comparison.
pub open spec fn fold_key(s: Seq<u8>) -> Seq<u8> {
    s.map_values(|b: u8| upper_byte(b))
}

/// Case-insensitive equality of two key byte sequences.
pub open spec fn key_eq(a: Seq<u8>, b: Seq<u8>) -> bool {
    fold_key(a) == fold_key(b)
}

fn upper(b: u8) -> (r: u8)
    ensures
        r == upper_byte(b),
{
    if 97 <= b && b <= 122 {
        b - 32
    } else {
        b
    }
}

/// Compares two keys, ignoring ASCII case.
fn eq_ignore_case(a: &str, b: &str) -> (r: bool)
    ensures
        r == key_eq(a.spec_bytes(), b.spec_bytes()),
{
    let av = a.as_bytes_vec();
    let bv = b.as_bytes_vec();
    if av.len() != bv.len() {
        proof {
            assert(fold_key(a.spec_bytes()).len() == a.spec_bytes().len());
            assert(fold_key(b.spec_bytes()).len() == b.spec_bytes().len());
        }
        return false;
    }
    let mut i: usize = 0;
    while i < av.len()
        invariant
            av@ == a.spec_bytes(),
            bv@ == b.spec_bytes(),
            av@.len() == bv@.len(),
            i <= av@.len(),
            forall|j: int| 0 <= j < i ==> fold_key(av@)[j] == fold_key(bv@)[j],
        decreases av@.len() - i,
    {
        if upper(av[i]) != upper(bv[i]) {
            proof {
                assert(fold_key(av@)[i as int] != fold_key(bv@)[i as int]);
            }
            return false;
        }
        i = i + 1;
    }
    proof {
        assert(fold_key(a.spec_bytes()) =~= fold_key(b.spec_bytes()));
    }
    true
}

/// The value of the first entry whose key equals `key` ignoring case.
pub open spec fn lookup_spec(entries: Seq<(String, String)>, key: Seq<u8>) -> Option<String>
    decreases entries.len(),
{
    if entries.len() == 0 {
        None
    } else if key_eq(encode_utf8(entries[0].0@), key) {
        Some(entries[0].1)
    } else {
        lookup_spec(entries.drop_first(), key)
    }
}

/// Finds the first entry matching `key` ignoring case.
fn lookup<'a>(entries: &'a Vec<(String, String)>, key: &str) -> (r: Option<&'a String>)
    ensures
        match r {
            Some(v) => lookup_spec(entries@, key.spec_bytes()) == Some(*v),
            None => lookup_spec(entries@, key.spec_bytes()) is None,
        },
{
    let mut i: usize = 0;
    proof {
        assert(entries@.skip(0) =~= entries@);
    }
    while i < entries.len()
        invariant
            i <= entries@.len(),
            lookup_spec(entries@, key.spec_bytes()) == lookup_spec(
                entries@.skip(i as int),
                key.spec_bytes(),
            ),
        decreases entries@.len() - i,
    {
        if eq_ignore_case(entries[i].0.as_str(), key) {
            proof {
                assert(entries@.skip(i as int)[0] == entries@[i as int]);
            }
            return Some(&entries[i].1);
        }
        proof {
            assert(entries@.skip(i as int).drop_first() =~= entries@.skip(i as int + 1));
        }
        i = i + 1;
    }
    proof {
        assert(entries@.skip(i as int).len() == 0);
    }
    None
}

/// Whether a byte is a decimal digit.
pub open spec fn is_digit(b: u8) -> bool {
    48 <= b && b <= 57
}

/// Whether a byte sequence consists of decimal digits only.
pub open spec fn all_digits(s: Seq<u8>) -> bool {
    forall|i: int| 0 <= i < s.len() ==> is_digit(#[trigger] s[i])
}

/// The number a sequence of decimal digits denotes.
pub open spec fn digits_value(s: Seq<u8>) -> int
    decreases s.len(),
{
    if s.len() == 0 {
        0
    } else {
        digits_value(s.drop_last()) * 10 + (s.last() - 48)
    }
}

proof fn lemma_digits_value_nonneg(s: Seq<u8>)
    requires
        all_digits(s),
    ensures
        digits_value(s) >= 0,
    decreases s.len(),
{
    if s.len() > 0 {
        assert(forall|i: int| 0 <= i < s.drop_last().len() ==> is_digit(#[trigger] s.drop_last()[i]));
        lemma_digits_value_nonneg(s.drop_last());
    }
}

/// A longer digit prefix never denotes a smaller number.
proof fn lemma_digits_prefix_le(s: Seq<u8>, i: int, j: int)
    requires
        all_digits(s),
        0 <= i <= j <= s.len(),
    ensures
        digits_value(s.take(i)) <= digits_value(s.take(j)),
    decreases j - i,
{
    if i < j {
        lemma_digits_prefix_le(s, i, j - 1);
        assert(s.take(j).drop_last() =~= s.take(j - 1));
        assert(forall|k: int|
            0 <= k < s.take(j - 1).len() ==> is_digit(#[trigger] s.take(j - 1)[k]));
        lemma_digits_value_nonneg(s.take(j - 1));
        assert(s.take(j).last() == s[j - 1]);
    }
}

/// Parses a plain decimal number. Returns the denoted value exactly when
/// the text is non-empty, all digits, and the value fits; `None` in every
/// other case.
pub fn parse_u32(s: &str) -> (r: Option<u32>)
    ensures
        r is Some <==> s.spec_bytes().len() > 0 && all_digits(s.spec_bytes()) && digits_value(
            s.spec_bytes(),
        ) <= u32::MAX,
        r matches Some(v) ==> v == digits_value(s.spec_bytes()),
{
    let bytes = s.as_bytes_vec();
    if bytes.len() == 0 {
        return None;
    }
    let mut acc: u64 = 0;
    let mut i: usize = 0;
    while i < bytes.len()
        invariant
            bytes@ == s.spec_bytes(),
            i <= bytes@.len(),
            forall|j: int| 0 <= j < i ==> is_digit(#[trigger] bytes@[j]),
            acc == digits_value(bytes@.take(i as int)),
            acc <= u32::MAX,
        decreases bytes@.len() - i,
    {
        let b = bytes[i];
        if b < 48 || b > 57 {
            return None;
        }
        let next: u64 = acc * 10 + (b - 48) as u64;
        proof {
            assert(bytes@.take(i as int + 1).drop_last() =~= bytes@.take(i as int));
            assert(bytes@.take(i as int + 1).last() == bytes@[i as int]);
        }
        if next > 0xFFFF_FFFFu64 {
            proof {
                if all_digits(bytes@) {
                    lemma_digits_prefix_le(bytes@, i as int + 1, bytes@.len() as int);
                    assert(bytes@.take(bytes@.len() as int) =~= bytes@);
                }
            }
            return None;
        }
        acc = next;
        i = i + 1;
    }
    proof {
        assert(bytes@.take(bytes@.len() as int) =~= bytes@);
    }
    Some(acc as u32)
}

/// Parses a plain decimal number that must fit 16 bits.
pub fn parse_u16(s: &str) -> (r: Option<u16>)
    ensures
        r is Some <==> s.spec_bytes().len() > 0 && all_digits(s.spec_bytes()) && digits_value(
            s.spec_bytes(),
        ) <= u16::MAX,
        r matches Some(v) ==> v == digits_value(s.spec_bytes()),
{
    match parse_u32(s) {
        Some(v) => if v <= 0xFFFFu32 {
            Some(v as u16)
        } else {
            None
        },
        None => None,
    }
}

/// Where the service listens.
#[derive(Clone, Debug)]
pub struct ServerConfig {
    pub addr: String,
    pub port: u16,
}

/// How the store is reached.
#[derive(Clone, Debug)]
pub struct DatabaseConfig {
    pub addr: String,
    pub port: u16,
    pub name: String,
    pub username: String,
    pub password: String,
    pub max_conn: u32,
    pub min_conn: u32,
}

/// What the running application calls itself.
#[derive(Clone, Debug)]
pub struct AppMeta {
    pub env: String,
    pub name: String,
}

/// The whole application configuration.
#[derive(Clone, Debug)]
pub struct AppConfig {
    pub app: AppMeta,
    pub server: ServerConfig,
    pub database: DatabaseConfig,
}

/// What the HTTP server is started with.
#[derive(Clone, Debug)]
pub struct Config {
    pub address: String,
    pub port: u16,
}

/// What the store connection is opened with.
#[derive(Clone, Debug)]
pub struct PostgresConfig {
    pub address: String,
    pub port: u16,
    pub dbname: String,
    pub username: String,
    pub password: String,
    pub max_conn: u32,
    pub min_conn: u32,
}

/// The configuration fields, in the order they are checked.
#[derive(Clone, Copy, Debug, PartialEq, Eq, Structural)]
pub enum ConfigKey {
    AppEnv,
    AppName,
    ServerAddr,
    ServerPort,
    DatabaseAddr,
    DatabasePort,
    DatabaseName,
    DatabaseUsername,
    DatabasePassword,
    DatabaseMaxConn,
    DatabaseMinConn,
}

/// The entry name a field is read from.
pub open spec fn key_bytes(k: ConfigKey) -> Seq<u8> {
    match k {
        ConfigKey::AppEnv => "APP__ENV".spec_bytes(),
        ConfigKey::AppName => "APP__NAME".spec_bytes(),
        ConfigKey::ServerAddr => "SERVER__ADDR".spec_bytes(),
        ConfigKey::ServerPort => "SERVER__PORT".spec_bytes(),
        ConfigKey::DatabaseAddr => "DATABASE__ADDR".spec_bytes(),
        ConfigKey::DatabasePort => "DATABASE__PORT".spec_bytes(),
        ConfigKey::DatabaseName => "DATABASE__NAME".spec_bytes(),
        ConfigKey::DatabaseUsername => "DATABASE__USERNAME".spec_bytes(),
        ConfigKey::DatabasePassword => "DATABASE__PASSWORD".spec_bytes(),
        ConfigKey::DatabaseMaxConn => "DATABASE__MAX_CONN".spec_bytes(),
        ConfigKey::DatabaseMinConn => "DATABASE__MIN_CONN".spec_bytes(),
    }
}

impl ConfigKey {
    /// The entry name of this field.
    pub fn name(self) -> (r: &'static str)
        ensures
            r.spec_bytes() == key_bytes(self),
    {
        match self {
            ConfigKey::AppEnv => "APP__ENV",
            ConfigKey::AppName => "APP__NAME",
            ConfigKey::ServerAddr => "SERVER__ADDR",
            ConfigKey::ServerPort => "SERVER__PORT",
            ConfigKey::DatabaseAddr => "DATABASE__ADDR",
            ConfigKey::DatabasePort => "DATABASE__PORT",
            ConfigKey::DatabaseName => "DATABASE__NAME",
            ConfigKey::DatabaseUsername => "DATABASE__USERNAME",
            ConfigKey::DatabasePassword => "DATABASE__PASSWORD",
            ConfigKey::DatabaseMaxConn => "DATABASE__MAX_CONN",
            ConfigKey::DatabaseMinConn => "DATABASE__MIN_CONN",
        }
    }
}

/// A field could not be filled: its entry is absent, or present but not a
/// number of the field's size.
#[derive(Clone, Copy, Debug, PartialEq, Eq, Structural)]
pub enum ConfigError {
    Missing(ConfigKey),
    Invalid(ConfigKey),
}

/// The entry a field is read from, if present.
pub open spec fn entry_for(entries: Seq<(String, String)>, k: ConfigKey) -> Option<String> {
    lookup_spec(entries, key_bytes(k))
}

/// The bytes of an entry value.
pub open spec fn value_bytes(v: String) -> Seq<u8> {
    encode_utf8(v@)
}

/// The value is a plain decimal number no larger than `max`.
pub open spec fn parses_within(v: String, max: int) -> bool {
    &&& value_bytes(v).len() > 0
    &&& all_digits(value_bytes(v))
    &&& digits_value(value_bytes(v)) <= max
}

/// What, if anything, is wrong with one field of the configuration.
pub open spec fn key_error(entries: Seq<(String, String)>, k: ConfigKey) -> Option<ConfigError> {
    match entry_for(entries, k) {
        None => Some(ConfigError::Missing(k)),
        Some(v) => match k {
            ConfigKey::ServerPort | ConfigKey::DatabasePort => if parses_within(
                v,
                u16::MAX as int,
            ) {
                None
            } else {
                Some(ConfigError::Invalid(k))
            },
            ConfigKey::DatabaseMaxConn | ConfigKey::DatabaseMinConn => if parses_within(
                v,
                u32::MAX as int,
            ) {
                None
            } else {
                Some(ConfigError::Invalid(k))
            },
            _ => None,
        },
    }
}

/// The first field, in declaration order, that cannot be filled.
pub open spec fn first_config_error(entries: Seq<(String, String)>) -> Option<ConfigError> {
    if key_error(entries, ConfigKey::AppEnv) is Some {
        key_error(entries, ConfigKey::AppEnv)
    } else if key_error(entries, ConfigKey::AppName) is Some {
        key_error(entries, ConfigKey::AppName)
    } else if key_error(entries, ConfigKey::ServerAddr) is Some {
        key_error(entries, ConfigKey::ServerAddr)
    } else if key_error(entries, ConfigKey::ServerPort) is Some {
        key_error(entries, ConfigKey::ServerPort)
    } else if key_error(entries, ConfigKey::DatabaseAddr) is Some {
        key_error(entries, ConfigKey::DatabaseAddr)
    } else if key_error(entries, ConfigKey::DatabasePort) is Some {
        key_error(entries, ConfigKey::DatabasePort)
    } else if key_error(entries, ConfigKey::DatabaseName) is Some {
        key_error(entries, ConfigKey::DatabaseName)
    } else if key_error(entries, ConfigKey::DatabaseUsername) is Some {
        key_error(entries, ConfigKey::DatabaseUsername)
    } else if key_error(entries, ConfigKey::DatabasePassword) is Some {
        key_error(entries, ConfigKey::DatabasePassword)
    } else if key_error(entries, ConfigKey::DatabaseMaxConn) is Some {
        key_error(entries, ConfigKey::DatabaseMaxConn)
    } else if key_error(entries, ConfigKey::DatabaseMinConn) is Some {
        key_error(entries, ConfigKey::DatabaseMinConn)
    } else {
        None
    }
}

/// A text field holds exactly the entry's value.
pub open spec fn text_field_is(
    entries: Seq<(String, String)>,
    k: ConfigKey,
    field: Seq<char>,
) -> bool {
    match entry_for(entries, k) {
        Some(v) => field == v@,
        None => false,
    }
}

/// A numeric field holds exactly the number the entry denotes.
pub open spec fn numeric_field_is(entries: Seq<(String, String)>, k: ConfigKey, field: int) -> bool {
    match entry_for(entries, k) {
        Some(v) => field == digits_value(value_bytes(v)),
        None => false,
    }
}

impl AppConfig {
    /// Fills the configuration from environment-style entries.
    ///
    /// Keys are matched ignoring ASCII case; ports must be decimal
    /// numbers fitting 16 bits, connection counts decimal numbers
    /// fitting 32 bits. Succeeds exactly when every field can be filled;
    /// otherwise reports the first field, in declaration order, that is
    /// missing or invalid.
    pub fn init(entries: &Vec<(String, String)>) -> (r: Result<AppConfig, ConfigError>)
        ensures
            r is Ok <==> first_config_error(entries@) is None,
            r matches Err(e) ==> Some(e) == first_config_error(entries@),
            r matches Ok(cfg) ==> {
                &&& text_field_is(entries@, ConfigKey::AppEnv, cfg.app.env@)
                &&& text_field_is(entries@, ConfigKey::AppName, cfg.app.name@)
                &&& text_field_is(entries@, ConfigKey::ServerAddr, cfg.server.addr@)
                &&& numeric_field_is(entries@, ConfigKey::ServerPort, cfg.server.port as int)
                &&& text_field_is(entries@, ConfigKey::DatabaseAddr, cfg.database.addr@)
                &&& numeric_field_is(entries@, ConfigKey::DatabasePort, cfg.database.port as int)
                &&& text_field_is(entries@, ConfigKey::DatabaseName, cfg.database.name@)
                &&& text_field_is(entries@, ConfigKey::DatabaseUsername, cfg.database.username@)
                &&& text_field_is(entries@, ConfigKey::DatabasePassword, cfg.database.password@)
                &&& numeric_field_is(entries@, ConfigKey::DatabaseMaxConn, cfg.database.max_conn as int)
                &&& numeric_field_is(entries@, ConfigKey::DatabaseMinConn, cfg.database.min_conn as int)
            },
    {
        let app_env = match lookup(entries, ConfigKey::AppEnv.name()) {
            Some(v) => v.clone(),
            None => {
                return Err(ConfigError::Missing(ConfigKey::AppEnv));
            },
        };
        let app_name = match lookup(entries, ConfigKey::AppName.name()) {
            Some(v) => v.clone(),
            None => {
                return Err(ConfigError::Missing(ConfigKey::AppName));
            },
        };
        let server_addr = match lookup(entries, ConfigKey::ServerAddr.name()) {
            Some(v) => v.clone(),
            None => {
                return Err(ConfigError::Missing(ConfigKey::ServerAddr));
            },
        };
        let server_port: u16 = match lookup(entries, ConfigKey::ServerPort.name()) {
            Some(v) => match parse_u16(v.as_str()) {
                Some(n) => n,
                None => {
                    return Err(ConfigError::Invalid(ConfigKey::ServerPort));
                },
            },
            None => {
                return Err(ConfigError::Missing(ConfigKey::ServerPort));
            },
        };
        let database_addr = match lookup(entries, ConfigKey::DatabaseAddr.name()) {
            Some(v) => v.clone(),
            None => {
                return Err(ConfigError::Missing(ConfigKey::DatabaseAddr));
            },
        };
        let database_port: u16 = match lookup(entries, ConfigKey::DatabasePort.name()) {
            Some(v) => match parse_u16(v.as_str()) {
                Some(n) => n,
                None => {
                    return Err(ConfigError::Invalid(ConfigKey::DatabasePort));
                },
            },
            None => {
                return Err(ConfigError::Missing(ConfigKey::DatabasePort));
            },
        };
        let database_name = match lookup(entries, ConfigKey::DatabaseName.name()) {
            Some(v) => v.clone(),
            None => {
                return Err(ConfigError::Missing(ConfigKey::DatabaseName));
            },
        };
        let database_username = match lookup(entries, ConfigKey::DatabaseUsername.name()) {
            Some(v) => v.clone(),
            None => {
                return Err(ConfigError::Missing(ConfigKey::DatabaseUsername));
            },
        };
        let database_password = match lookup(entries, ConfigKey::DatabasePassword.name()) {
            Some(v) => v.clone(),
            None => {
                return Err(ConfigError::Missing(ConfigKey::DatabasePassword));
            },
        };
        let max_conn: u32 = match lookup(entries, ConfigKey::DatabaseMaxConn.name()) {
            Some(v) => match parse_u32(v.as_str()) {
                Some(n) => n,
                None => {
                    return Err(ConfigError::Invalid(ConfigKey::DatabaseMaxConn));
                },
            },
            None => {
                return Err(ConfigError::Missing(ConfigKey::DatabaseMaxConn));
            },
        };
        let min_conn: u32 = match lookup(entries, ConfigKey::DatabaseMinConn.name()) {
            Some(v) => match parse_u32(v.as_str()) {
                Some(n) => n,
                None => {
                    return Err(ConfigError::Invalid(ConfigKey::DatabaseMinConn));
                },
            },
            None => {
                return Err(ConfigError::Missing(ConfigKey::DatabaseMinConn));
            },
        };
        Ok(
            AppConfig {
                app: AppMeta { env: app_env, name: app_name },
                server: ServerConfig { addr: server_addr, port: server_port },
                database: DatabaseConfig {
                    addr: database_addr,
                    port: database_port,
                    name: database_name,
                    username: database_username,
                    password: database_password,
                    max_conn,
                    min_conn,
                },
            },
        )
    }

    /// The settings the HTTP server is started with.
    pub fn server_settings(&self) -> (r: Config)
        ensures
            r.address@ == self.server.addr@,
            r.port == self.server.port,
    {
        Config { address: self.server.addr.clone(), port: self.server.port }
    }

    /// The settings the store connection is opened with.
    pub fn postgres_settings(&self) -> (r: PostgresConfig)
        ensures
            r.address@ == self.database.addr@,
            r.port == self.database.port,
            r.dbname@ == self.database.name@,
            r.username@ == self.database.username@,
            r.password@ == self.database.password@,
            r.max_conn == self.database.max_conn,
            r.min_conn == self.database.min_conn,
    {
        PostgresConfig {
            address: self.database.addr.clone(),
            port: self.database.port,
            dbname: self.database.name.clone(),
            username: self.database.username.clone(),
            password: self.database.password.clone(),
            max_conn: self.database.max_conn,
            min_conn: self.database.min_conn,
        }
    }
}

} // verus!
