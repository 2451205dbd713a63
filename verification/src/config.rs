//! The persisted configuration: the in-memory store consulted on every event
//! and the textual record format it is saved in and loaded from.

use vstd::prelude::*;

use crate::text::{
    dec_chars, has_prefix, lemma_dec_chars_props, parse_digits_spec, parse_digits_str,
    str_has_prefix, u64_to_string,
};

verus! {

/// The single persisted record: at most one monitored channel; `None` means
/// PR-link monitoring is disabled.
#[derive(Clone, Copy, Debug)]
pub struct Config {
    pub pr_channel: Option<u64>,
}

impl Config {
    /// The default configuration: monitoring disabled.
    pub fn new() -> (c: Config)
        ensures
            c == (Config { pr_channel: None }),
    {
        Config { pr_channel: None }
    }
}

/// The in-memory accessor for the configuration. Reads and writes go through
/// it; a process shares one store among its event handlers behind a single
/// exclusive lock, held only for the read or the read-modify-write.
pub struct ConfigStore {
    config: Config,
}

impl ConfigStore {
    /// The configuration currently held.
    pub closed spec fn config(&self) -> Config {
        self.config
    }

    /// A store holding the default configuration.
    pub fn new() -> (s: ConfigStore)
        ensures
            s.config() == (Config { pr_channel: None }),
    {
        ConfigStore { config: Config { pr_channel: None } }
    }

    /// A store holding a previously loaded configuration.
    pub fn from_config(c: Config) -> (s: ConfigStore)
        ensures
            s.config() == c,
    {
        ConfigStore { config: c }
    }

    /// Reads the configuration.
    pub fn get(&self) -> (c: Config)
        ensures
            c == self.config(),
    {
        self.config
    }

    /// Designates `channel_id` as the monitored channel.
    pub fn set_monitored_channel(&mut self, channel_id: u64)
        ensures
            final(self).config() == (Config { pr_channel: Some(channel_id) }),
    {
        self.config = Config { pr_channel: Some(channel_id) };
    }
}

/// The key of the one field of the durable record.
pub open spec fn config_key() -> Seq<char> {
    "pr_channel = "@
}

/// The durable form of a configuration: an empty document when no channel is
/// monitored, else the single key-value line.
pub open spec fn encoded_config(c: Config) -> Seq<char> {
    match c.pr_channel {
        Some(n) => "pr_channel = "@ + dec_chars(n as nat) + "\n"@,
        None => Seq::<char>::empty(),
    }
}

/// The configuration a durable record denotes, or nothing where the record is
/// corrupt: it must be empty, or the key followed by a decimal channel
/// identifier and an optional trailing newline.
pub open spec fn decoded_config(s: Seq<char>) -> Option<Config> {
    if s.len() == 0 {
        Some(Config { pr_channel: None })
    } else if has_prefix(s, config_key()) {
        let rest = s.subrange(config_key().len() as int, s.len() as int);
        let digits = if rest.len() > 0 && rest.last() == '\n' {
            rest.drop_last()
        } else {
            rest
        };
        match parse_digits_spec(digits) {
            Some(n) => Some(Config { pr_channel: Some(n) }),
            None => None,
        }
    } else {
        None
    }
}

/// A present-but-corrupt durable record; fatal at startup.
#[derive(Debug)]
pub enum ConfigError {
    Corrupt,
}

impl ConfigError {
    /// A human-readable account of the error.
    pub fn message(&self) -> (s: String)
        ensures
            s@ == "corrupt configuration record"@,
    {
        String::from_str("corrupt configuration record")
    }
}

/// Serializes the configuration to its durable form.
pub fn save_config(c: &Config) -> (s: String)
    ensures
        s@ == encoded_config(*c),
{
    match c.pr_channel {
        None => String::new(),
        Some(n) => {
            let mut s = String::from_str("pr_channel = ");
            let digits = u64_to_string(n);
            s.append(digits.as_str());
            s.append("\n");
            proof {
                assert(s@ =~= encoded_config(*c));
            }
            s
        },
    }
}

/// Parses a durable record; a missing record is represented by the empty
/// text and yields the default, a corrupt record an error.
pub fn load_config(text: &str) -> (r: Result<Config, ConfigError>)
    ensures
        (r matches Ok(c) ==> decoded_config(text@) == Some(c)),
        (r is Err ==> decoded_config(text@) is None),
{
    let n: usize = text.unicode_len();
    if n == 0 {
        return Ok(Config { pr_channel: None });
    }
    if !str_has_prefix(text, "pr_channel = ") {
        return Err(ConfigError::Corrupt);
    }
    let klen: usize = "pr_channel = ".unicode_len();
    let rest = text.substring_char(klen, n);
    let ghost rest_seq: Seq<char> = text@.subrange(klen as int, n as int);
    let rlen: usize = rest.unicode_len();
    let digits = if rlen > 0 && rest.get_char(rlen - 1) == '\n' {
        rest.substring_char(0, rlen - 1)
    } else {
        rest
    };
    proof {
        if rest_seq.len() > 0 && rest_seq.last() == '\n' {
            assert(digits@ =~= rest_seq.drop_last());
        }
    }
    match parse_digits_str(digits) {
        Some(v) => Ok(Config { pr_channel: Some(v) }),
        None => Err(ConfigError::Corrupt),
    }
}

/// Persistence round trip: decoding an encoded configuration yields that very
/// configuration, for every representable one, the absent-channel default
/// included.
pub proof fn lemma_config_round_trip(c: Config)
    ensures
        decoded_config(encoded_config(c)) == Some(c),
{
    reveal_strlit("pr_channel = ");
    reveal_strlit("\n");
    match c.pr_channel {
        None => {
            assert(encoded_config(c).len() == 0);
        },
        Some(n) => {
            let e = encoded_config(c);
            lemma_dec_chars_props(n as nat);
            assert(e.subrange(0, config_key().len() as int) =~= config_key());
            let rest = e.subrange(config_key().len() as int, e.len() as int);
            assert(rest =~= dec_chars(n as nat) + "\n"@);
            assert(rest.last() == '\n');
            assert(rest.drop_last() =~= dec_chars(n as nat));
            assert(parse_digits_spec(dec_chars(n as nat)) == Some(n));
        },
    }
}

} // verus!
