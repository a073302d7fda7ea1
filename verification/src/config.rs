//! The configuration the sink starts from.

use vstd::prelude::*;
use crate::codec::{decode_spec, key_views, DecodeError, FixedKey32, IdentityCodec};

verus! {

/// Why no configuration could be had. Each of these keeps the sink from
/// starting.
#[derive(Clone, Copy, Debug, PartialEq, Eq, Structural)]
pub enum ConfigError {
    /// The configuration file could not be read.
    IO,
    /// The file was read, but it is not structured as a configuration.
    Parse,
    /// A listed program is not the base58 form of a 32-byte identity.
    InvalidIdentity,
}

/// A configuration file's content, as written: the programs are still text.
#[derive(Clone, Debug)]
pub struct ConfigFile {
    /// Endpoint URL of the remote store.
    pub supabase_url: String,
    /// Credential sent with every request.
    pub supabase_key: String,
    /// Base58 identities of the programs to forward, if the file lists any.
    pub programs: Option<Vec<String>>,
}

/// What reading the configuration file came to.
#[derive(Clone, Debug)]
pub enum ConfigSource {
    /// The file could not be opened or read.
    Unreadable,
    /// The file was read, but a required field is missing or the structure
    /// is wrong.
    Malformed,
    /// The file was read and has the required structure.
    Parsed(ConfigFile),
}

/// Where the remote store is, how to authenticate, and which programs'
/// accounts are forwarded.
#[derive(Clone, Debug)]
pub struct Configuration {
    /// Endpoint URL of the remote store.
    pub supabase_url: String,
    /// Credential sent with every request.
    pub supabase_key: String,
    /// Identities of the programs whose accounts are forwarded.
    pub allowed_programs: Vec<FixedKey32>,
}

/// A configuration as plain values.
pub struct ConfigurationView {
    pub supabase_url: Seq<char>,
    pub supabase_key: Seq<char>,
    pub allowed_programs: Seq<Seq<u8>>,
}

impl View for Configuration {
    type V = ConfigurationView;

    open spec fn view(&self) -> ConfigurationView {
        ConfigurationView {
            supabase_url: self.supabase_url@,
            supabase_key: self.supabase_key@,
            allowed_programs: key_views(self.allowed_programs@),
        }
    }
}

/// Every entry is the base58 form of a 32-byte identity.
pub open spec fn entries_decodable(entries: Seq<Seq<char>>) -> bool {
    forall|i: int| 0 <= i < entries.len() ==> (#[trigger] decode_spec(entries[i])) is Ok
}

/// The identities that the entries stand for, in the order of the entries.
pub open spec fn decoded_entries(entries: Seq<Seq<char>>) -> Seq<Seq<u8>> {
    Seq::new(entries.len(), |i: int| decode_spec(entries[i])->Ok_0)
}

impl ConfigFile {
    /// The listed programs; none where the file has no list.
    pub open spec fn entries(&self) -> Seq<Seq<char>> {
        match self.programs {
            Some(list) => list.deep_view(),
            None => Seq::empty(),
        }
    }

    /// The configuration that this content stands for, once every entry is
    /// decoded.
    pub open spec fn configured(&self) -> ConfigurationView {
        ConfigurationView {
            supabase_url: self.supabase_url@,
            supabase_key: self.supabase_key@,
            allowed_programs: decoded_entries(self.entries()),
        }
    }
}

/// What loading comes to: the configuration, or the one error that applies.
pub open spec fn load_spec(source: ConfigSource) -> Result<ConfigurationView, ConfigError> {
    match source {
        ConfigSource::Unreadable => Err(ConfigError::IO),
        ConfigSource::Malformed => Err(ConfigError::Parse),
        ConfigSource::Parsed(file) => if entries_decodable(file.entries()) {
            Ok(file.configured())
        } else {
            Err(ConfigError::InvalidIdentity)
        },
    }
}

/// Decodes the listed programs, in order. One entry that is no identity
/// fails the whole list.
pub fn decode_programs(entries: &Vec<String>) -> (r: Result<Vec<FixedKey32>, ConfigError>)
    ensures
        entries_decodable(entries.deep_view()) ==> r is Ok,
        match r {
            Ok(keys) => entries_decodable(entries.deep_view()) && key_views(keys@)
                == decoded_entries(entries.deep_view()),
            Err(e) => e == ConfigError::InvalidIdentity,
        },
{
    let mut keys: Vec<FixedKey32> = Vec::new();
    let mut i: usize = 0;
    while i < entries.len()
        invariant
            i <= entries.len(),
            keys.len() == i,
            forall|j: int|
                0 <= j < i ==> decode_spec(#[trigger] entries.deep_view()[j]) == Ok::<
                    Seq<u8>,
                    DecodeError,
                >(key_views(keys@)[j]),
        decreases entries.len() - i,
    {
        match IdentityCodec::decode(entries[i].as_str()) {
            Ok(key) => {
                keys.push(key);
            },
            Err(_) => {
                assert(!(decode_spec(entries.deep_view()[i as int]) is Ok));
                return Err(ConfigError::InvalidIdentity);
            },
        }
        i += 1;
    }
    assert(key_views(keys@) =~= decoded_entries(entries.deep_view()));
    Ok(keys)
}

impl Configuration {
    /// Makes the configuration from what reading the file came to.
    ///
    /// An unreadable file, a malformed one and a program entry that is no
    /// identity each fail with their own error; otherwise the listed
    /// programs are the allowed ones, and a file without a list allows none.
    pub fn load(source: ConfigSource) -> (r: Result<Configuration, ConfigError>)
        ensures
            match r {
                Ok(configuration) => load_spec(source) == Ok::<ConfigurationView, ConfigError>(
                    configuration@,
                ),
                Err(e) => load_spec(source) == Err::<ConfigurationView, ConfigError>(e),
            },
            source is Unreadable ==> r == Err::<Configuration, ConfigError>(ConfigError::IO),
            source is Malformed ==> r == Err::<Configuration, ConfigError>(ConfigError::Parse),
            source matches ConfigSource::Parsed(file) ==> match r {
                Ok(configuration) => entries_decodable(file.entries()) && configuration@
                    == file.configured(),
                Err(e) => !entries_decodable(file.entries()) && e == ConfigError::InvalidIdentity,
            },
    {
        match source {
            ConfigSource::Unreadable => Err(ConfigError::IO),
            ConfigSource::Malformed => Err(ConfigError::Parse),
            ConfigSource::Parsed(file) => {
                let allowed_programs = match &file.programs {
                    Some(list) => match decode_programs(list) {
                        Ok(keys) => keys,
                        Err(e) => {
                            return Err(e);
                        },
                    },
                    None => Vec::new(),
                };
                let configuration = Configuration {
                    supabase_url: file.supabase_url,
                    supabase_key: file.supabase_key,
                    allowed_programs,
                };
                assert(configuration@.allowed_programs =~= file.configured().allowed_programs);
                Ok(configuration)
            },
        }
    }
}

} // verus!
