//! The bot's configuration, assembled from a flat table of `section.key`
//! entries.
use vstd::prelude::*;

verus! {

#[derive(Debug)]
pub struct Log {
    pub level: String,
}

#[derive(Debug)]
pub struct Server {
    pub port: u16,
}

#[derive(Debug)]
pub struct Character {
    pub path: String,
    pub content: String,
}

#[derive(Debug)]
pub struct Tee {
    pub tee_host: String,
    pub basic_token: String,
}

#[derive(Debug)]
pub struct Icp {
    pub api_host: String,
    pub object_store_canister: String,
}

/// Model-provider settings; each is empty when not given.
#[derive(Debug)]
pub struct Llm {
    pub deepseek_api_key: String,
    pub cohere_api_key: String,
    pub cohere_embedding_model: String,
    pub openai_api_key: String,
    pub openai_embedding_model: String,
    pub openai_completion_model: String,
}

/// Settings of the X account.
#[derive(Debug)]
pub struct X {
    pub username: String,
    pub password: String,
    pub email: Option<String>,
    pub two_factor_auth: Option<String>,
    pub cookie_string: Option<String>,
}

#[derive(Debug)]
pub struct Conf {
    pub character: Character,
    pub log: Log,
    pub server: Server,
    pub llm: Llm,
    pub tee: Tee,
    pub icp: Icp,
    pub x: X,
}

/// Why a configuration could not be assembled; each names the key.
#[derive(Debug)]
pub enum ConfError {
    /// A required key is missing.
    NotFound(String),
    /// A key holds a value of the wrong form.
    Invalid(String),
}

/// The value of the first entry whose key is `key`.
pub open spec fn lookup(entries: Seq<(String, String)>, key: Seq<char>) -> Option<Seq<char>>
    decreases entries.len(),
{
    if entries.len() == 0 {
        None
    } else if entries[0].0@ == key {
        Some(entries[0].1@)
    } else {
        lookup(entries.drop_first(), key)
    }
}

/// The value of a decimal digit.
pub open spec fn digit_value(c: char) -> int {
    (c as u32) as int - ('0' as u32) as int
}

/// Whether every character is a decimal digit.
pub open spec fn all_digits(s: Seq<char>) -> bool {
    forall|i: int| 0 <= i < s.len() ==> '0' <= #[trigger] s[i] && s[i] <= '9'
}

/// The number that a run of decimal digits writes.
pub open spec fn decimal_value(s: Seq<char>) -> int
    decreases s.len(),
{
    if s.len() == 0 {
        0
    } else {
        decimal_value(s.drop_last()) * 10 + digit_value(s.last())
    }
}

/// The `u16` that `s` writes in decimal, with an optional leading `+`.
pub open spec fn u16_of(s: Seq<char>) -> Option<u16> {
    let digits = if s.len() > 0 && s[0] == '+' {
        s.drop_first()
    } else {
        s
    };
    if digits.len() > 0 && all_digits(digits) && decimal_value(digits) <= 65535 {
        Some(decimal_value(digits) as u16)
    } else {
        None
    }
}

/// Relies on `str::parse::<u16>`: decimal digits with an optional leading
/// `+`, and a value that fits.
#[verifier::external_body]
fn parse_u16(s: &str) -> (r: Option<u16>)
    ensures
        r == u16_of(s@),
{
    s.parse::<u16>().ok()
}

/// The value of the first entry whose key is `key`.
fn find(entries: &Vec<(String, String)>, key: &str) -> (r: Option<String>)
    ensures
        match r {
            Some(v) => lookup(entries@, key@) == Some(v@),
            None => lookup(entries@, key@) is None,
        },
{
    let owned = key.to_owned();
    let mut i: usize = 0;
    assert(entries@.subrange(0, entries@.len() as int) =~= entries@);
    while i < entries.len()
        invariant
            i <= entries@.len(),
            owned@ == key@,
            lookup(entries@, key@) == lookup(entries@.subrange(i as int, entries@.len() as int), key@),
        decreases entries@.len() - i,
    {
        let ghost rest = entries@.subrange(i as int, entries@.len() as int);
        assert(rest.drop_first() =~= entries@.subrange(i as int + 1, entries@.len() as int));
        if entries[i].0 == owned {
            return Some(entries[i].1.clone());
        }
        i = i + 1;
    }
    None
}

/// The value of a key that must be present.
fn required(entries: &Vec<(String, String)>, key: &str) -> (r: Result<String, ConfError>)
    ensures
        r is Ok <==> lookup(entries@, key@) is Some,
        r matches Ok(v) ==> lookup(entries@, key@) == Some(v@),
        r matches Err(e) ==> e is NotFound,
{
    match find(entries, key) {
        Some(v) => Ok(v),
        None => Err(ConfError::NotFound(key.to_owned())),
    }
}

/// The value of a key, or the empty string.
fn defaulted(entries: &Vec<(String, String)>, key: &str) -> (r: String)
    ensures
        r@ == text_or_empty(lookup(entries@, key@)),
{
    match find(entries, key) {
        Some(v) => v,
        None => String::new(),
    }
}

/// The value of a key, if present.
fn optional(entries: &Vec<(String, String)>, key: &str) -> (r: Option<String>)
    ensures
        match r {
            Some(v) => lookup(entries@, key@) == Some(v@),
            None => lookup(entries@, key@) is None,
        },
{
    find(entries, key)
}

/// A text, or the empty text when absent.
pub open spec fn text_or_empty(v: Option<Seq<char>>) -> Seq<char> {
    match v {
        Some(t) => t,
        None => Seq::empty(),
    }
}

/// Whether `r` holds the text that `v` holds, or is absent with it.
pub open spec fn same_option(r: Option<String>, v: Option<Seq<char>>) -> bool {
    match r {
        Some(s) => v == Some(s@),
        None => v is None,
    }
}

/// The keys that must be present.
pub open spec fn required_keys() -> Seq<Seq<char>> {
    seq![
        "character.path"@,
        "log.level"@,
        "server.port"@,
        "tee.tee_host"@,
        "tee.basic_token"@,
        "icp.api_host"@,
        "icp.object_store_canister"@,
        "x.username"@,
        "x.password"@,
    ]
}

impl Conf {
    /// Assembles the configuration from `section.key` entries; the first
    /// entry of a key counts. Fails with `NotFound` naming the first
    /// required key, in the order of `required_keys`, that is missing, and
    /// with `Invalid` when `server.port` is not a `u16` in decimal. Keys that
    /// are not required default to the empty text, or to nothing for the
    /// optional X settings.
    pub fn from(entries: &Vec<(String, String)>) -> (r: Result<Conf, ConfError>)
        ensures
            r is Ok <==> (forall|i: int|
                0 <= i < required_keys().len() ==> lookup(entries@, #[trigger] required_keys()[i])
                    is Some) && u16_of(text_or_empty(lookup(entries@, "server.port"@))) is Some,
            r matches Err(ConfError::Invalid(_)) ==> (forall|i: int|
                0 <= i < required_keys().len() ==> lookup(entries@, #[trigger] required_keys()[i])
                    is Some),
            r matches Ok(c) ==> {
                &&& lookup(entries@, "character.path"@) == Some(c.character.path@)
                &&& c.character.content@ == text_or_empty(lookup(entries@, "character.content"@))
                &&& lookup(entries@, "log.level"@) == Some(c.log.level@)
                &&& u16_of(text_or_empty(lookup(entries@, "server.port"@))) == Some(c.server.port)
                &&& lookup(entries@, "tee.tee_host"@) == Some(c.tee.tee_host@)
                &&& lookup(entries@, "tee.basic_token"@) == Some(c.tee.basic_token@)
                &&& lookup(entries@, "icp.api_host"@) == Some(c.icp.api_host@)
                &&& lookup(entries@, "icp.object_store_canister"@) == Some(
                    c.icp.object_store_canister@,
                )
                &&& lookup(entries@, "x.username"@) == Some(c.x.username@)
                &&& lookup(entries@, "x.password"@) == Some(c.x.password@)
                &&& same_option(c.x.email, lookup(entries@, "x.email"@))
                &&& same_option(c.x.two_factor_auth, lookup(entries@, "x.two_factor_auth"@))
                &&& same_option(c.x.cookie_string, lookup(entries@, "x.cookie_string"@))
                &&& c.llm.deepseek_api_key@ == text_or_empty(lookup(entries@, "llm.deepseek_api_key"@))
                &&& c.llm.cohere_api_key@ == text_or_empty(lookup(entries@, "llm.cohere_api_key"@))
                &&& c.llm.cohere_embedding_model@ == text_or_empty(
                    lookup(entries@, "llm.cohere_embedding_model"@),
                )
                &&& c.llm.openai_api_key@ == text_or_empty(lookup(entries@, "llm.openai_api_key"@))
                &&& c.llm.openai_embedding_model@ == text_or_empty(
                    lookup(entries@, "llm.openai_embedding_model"@),
                )
                &&& c.llm.openai_completion_model@ == text_or_empty(
                    lookup(entries@, "llm.openai_completion_model"@),
                )
            },
    {
        let path = match required(entries, "character.path") {
            Ok(v) => v,
            Err(e) => return Err(e),
        };
        let level = match required(entries, "log.level") {
            Ok(v) => v,
            Err(e) => return Err(e),
        };
        let port_text = match required(entries, "server.port") {
            Ok(v) => v,
            Err(e) => return Err(e),
        };
        let tee_host = match required(entries, "tee.tee_host") {
            Ok(v) => v,
            Err(e) => return Err(e),
        };
        let basic_token = match required(entries, "tee.basic_token") {
            Ok(v) => v,
            Err(e) => return Err(e),
        };
        let api_host = match required(entries, "icp.api_host") {
            Ok(v) => v,
            Err(e) => return Err(e),
        };
        let object_store_canister = match required(entries, "icp.object_store_canister") {
            Ok(v) => v,
            Err(e) => return Err(e),
        };
        let username = match required(entries, "x.username") {
            Ok(v) => v,
            Err(e) => return Err(e),
        };
        let password = match required(entries, "x.password") {
            Ok(v) => v,
            Err(e) => return Err(e),
        };
        let port = match parse_u16(port_text.as_str()) {
            Some(p) => p,
            None => return Err(ConfError::Invalid(port_text)),
        };
        Ok(Conf {
            character: Character { path, content: defaulted(entries, "character.content") },
            log: Log { level },
            server: Server { port },
            llm: Llm {
                deepseek_api_key: defaulted(entries, "llm.deepseek_api_key"),
                cohere_api_key: defaulted(entries, "llm.cohere_api_key"),
                cohere_embedding_model: defaulted(entries, "llm.cohere_embedding_model"),
                openai_api_key: defaulted(entries, "llm.openai_api_key"),
                openai_embedding_model: defaulted(entries, "llm.openai_embedding_model"),
                openai_completion_model: defaulted(entries, "llm.openai_completion_model"),
            },
            tee: Tee { tee_host, basic_token },
            icp: Icp { api_host, object_store_canister },
            x: X {
                username,
                password,
                email: optional(entries, "x.email"),
                two_factor_auth: optional(entries, "x.two_factor_auth"),
                cookie_string: optional(entries, "x.cookie_string"),
            },
        })
    }
}

} // verus!
