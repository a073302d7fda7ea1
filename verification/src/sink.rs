//! The per-update entry point: filter, build the record, prepare the upsert,
//! and name the outcome.

use vstd::prelude::*;
use crate::codec::FixedKey32;
use crate::config::{load_spec, ConfigError, ConfigSource, Configuration, ConfigurationView};
use crate::filter::IdentityFilter;
use crate::forward::{
    record_of, upsert_request, upsert_result, AccountRecord, AccountRecordView, ForwardError,
    ForwardingClient, UpsertReply, UpsertRequest,
};

verus! {

/// One observed change of an account. It lives for one call, and borrows
/// the account's data from the host.
#[derive(Clone, Copy, Debug)]
pub struct AccountUpdateEvent<'a> {
    /// The account's address.
    pub address: FixedKey32,
    /// The program that owns the account.
    pub owner: FixedKey32,
    /// The account's data.
    pub data: &'a [u8],
    /// Whether the account holds a program.
    pub executable: bool,
    /// The account's balance. Not forwarded.
    pub lamports: u64,
    /// The epoch at which the account next owes rent. Not forwarded.
    pub rent_epoch: u64,
    /// The slot in which the change was observed.
    pub slot: u64,
}

impl<'a> AccountUpdateEvent<'a> {
    /// The record that forwards this event.
    pub open spec fn record(&self) -> AccountRecordView {
        record_of(self.address@, self.owner@, self.data@, self.executable)
    }
}

/// The notification shapes that this sink does not read.
#[derive(Clone, Copy, Debug, PartialEq, Eq, Structural)]
pub enum LegacyVersion {
    V0_0_1,
    V0_0_2,
}

/// An account notification in one of the host's versions. Only the newest
/// one is read.
#[derive(Clone, Copy, Debug)]
pub enum AccountUpdateVersions<'a> {
    V0_0_1,
    V0_0_2,
    V0_0_3(AccountUpdateEvent<'a>),
}

/// How one account update ended.
#[derive(Clone, Copy, Debug, PartialEq, Eq, Structural)]
pub enum Outcome {
    /// The owner is not an allowed program: nothing was sent.
    Skipped,
    /// The remote store took the record.
    Forwarded,
    /// The record did not reach the store. The update is not replayed.
    ForwardFailed(ForwardError),
}

/// What is left to do for an update once the sink has decided.
pub enum Step {
    /// Nothing is to be sent: the update has ended this way.
    Done(Outcome),
    /// Exactly one upsert is to be sent; its reply goes to
    /// `PostgresPlugin::complete_upsert`.
    Upsert(UpsertRequest),
}

/// The errors that the sink reports to its host.
#[derive(Clone, Copy, Debug, PartialEq, Eq, Structural)]
pub enum PluginError {
    /// No configuration could be loaded: the sink stays inactive.
    ConfigFileReadError(ConfigError),
    /// The notification came in a shape that is not supported.
    AccountsUpdateError(LegacyVersion),
}

impl PluginError {
    /// The text reported with this error.
    pub open spec fn spec_message(&self) -> Seq<char> {
        match self {
            PluginError::ConfigFileReadError(_) => "Error opening, or reading config file"@,
            PluginError::AccountsUpdateError(LegacyVersion::V0_0_1) =>
                "V1 not supported, please upgrade your Solana CLI Version"@,
            PluginError::AccountsUpdateError(LegacyVersion::V0_0_2) =>
                "V2 not supported, please upgrade your Solana CLI Version"@,
        }
    }

    /// The text reported with this error.
    pub fn message(&self) -> (text: &'static str)
        ensures
            text@ == self.spec_message(),
    {
        match self {
            PluginError::ConfigFileReadError(_) => "Error opening, or reading config file",
            PluginError::AccountsUpdateError(LegacyVersion::V0_0_1) =>
                "V1 not supported, please upgrade your Solana CLI Version",
            PluginError::AccountsUpdateError(LegacyVersion::V0_0_2) =>
                "V2 not supported, please upgrade your Solana CLI Version",
        }
    }
}

/// The outcome that a reply to an upsert stands for.
pub open spec fn outcome_of(reply: UpsertReply) -> Outcome {
    match upsert_result(reply) {
        Ok(_) => Outcome::Forwarded,
        Err(e) => Outcome::ForwardFailed(e),
    }
}

/// The sink. It is inactive until a configuration is loaded; from then on
/// it holds the configuration and the client made from it, and neither
/// changes between updates.
pub struct PostgresPlugin {
    postgres_client: Option<ForwardingClient>,
    configuration: Option<Configuration>,
}

impl PostgresPlugin {
    #[verifier::type_invariant]
    spec fn client_matches_configuration(self) -> bool {
        match self.configuration {
            Some(configuration) => self.postgres_client matches Some(client)
                && client.spec_endpoint() == configuration@.supabase_url
                && client.spec_credential() == configuration@.supabase_key,
            None => self.postgres_client is None,
        }
    }

    /// The configuration in use, if one is loaded.
    pub closed spec fn spec_configuration(&self) -> Option<ConfigurationView> {
        match self.configuration {
            Some(configuration) => Some(configuration@),
            None => None,
        }
    }

    /// Whether a configuration is loaded.
    pub open spec fn spec_is_loaded(&self) -> bool {
        self.spec_configuration() is Some
    }

    /// The programs whose accounts are forwarded: none before a
    /// configuration is loaded.
    pub open spec fn allowed_programs(&self) -> Seq<Seq<u8>> {
        match self.spec_configuration() {
            Some(configuration) => configuration.allowed_programs,
            None => Seq::empty(),
        }
    }

    /// Whether accounts of `owner` are forwarded.
    pub open spec fn allows(&self, owner: Seq<u8>) -> bool {
        self.allowed_programs().contains(owner)
    }

    /// An inactive sink.
    pub fn new() -> (plugin: PostgresPlugin)
        ensures
            plugin.spec_configuration() is None,
    {
        PostgresPlugin { postgres_client: None, configuration: None }
    }

    /// The name the host knows the sink by.
    pub fn name(&self) -> (name: &'static str)
        ensures
            name@ == "geyser"@,
    {
        "geyser"
    }

    /// Whether a configuration is loaded.
    #[verifier::when_used_as_spec(spec_is_loaded)]
    pub fn is_loaded(&self) -> (loaded: bool)
        ensures
            loaded == self.spec_is_loaded(),
    {
        self.configuration.is_some()
    }

    /// The configuration in use, if one is loaded.
    pub fn configuration(&self) -> (r: Option<&Configuration>)
        ensures
            match r {
                Some(configuration) => self.spec_configuration() == Some(configuration@),
                None => self.spec_configuration() is None,
            },
    {
        self.configuration.as_ref()
    }

    /// The client in use, if a configuration is loaded. It is the client of
    /// that configuration.
    pub fn client(&self) -> (r: Option<&ForwardingClient>)
        ensures
            match r {
                Some(client) => self.spec_configuration() matches Some(configuration)
                    && client.spec_endpoint() == configuration.supabase_url
                    && client.spec_credential() == configuration.supabase_key,
                None => self.spec_configuration() is None,
            },
    {
        proof {
            use_type_invariant(self);
        }
        self.postgres_client.as_ref()
    }

    /// Activates the sink with the configuration that `source` holds. On
    /// any failure the sink is left as it was.
    pub fn on_load(&mut self, source: ConfigSource) -> (r: Result<(), PluginError>)
        ensures
            match r {
                Ok(_) => load_spec(source) == Ok::<ConfigurationView, ConfigError>(
                    final(self).spec_configuration()->Some_0,
                ) && final(self).spec_is_loaded(),
                Err(e) => load_spec(source) is Err && e == PluginError::ConfigFileReadError(
                    load_spec(source)->Err_0,
                ) && *final(self) == *old(self),
            },
    {
        match Configuration::load(source) {
            Ok(configuration) => {
                let client = ForwardingClient::new(&configuration);
                *self = PostgresPlugin {
                    postgres_client: Some(client),
                    configuration: Some(configuration),
                };
                Ok(())
            },
            Err(e) => Err(PluginError::ConfigFileReadError(e)),
        }
    }

    /// Called when the host lets the sink go. Nothing is held that needs
    /// releasing.
    pub fn on_unload(&mut self)
        ensures
            *final(self) == *old(self),
    {
    }

    /// Decides what one account update comes to.
    ///
    /// A notification in a legacy shape is rejected and nothing is sent. An
    /// account whose owner is not allowed is skipped and nothing is sent.
    /// For any other account exactly one upsert is prepared, with the
    /// account's record; where the record cannot be encoded the update has
    /// failed and nothing is sent.
    pub fn update_account(&self, account: AccountUpdateVersions) -> (r: Result<Step, PluginError>)
        ensures
            account is V0_0_1 ==> r == Err::<Step, PluginError>(
                PluginError::AccountsUpdateError(LegacyVersion::V0_0_1),
            ),
            account is V0_0_2 ==> r == Err::<Step, PluginError>(
                PluginError::AccountsUpdateError(LegacyVersion::V0_0_2),
            ),
            account matches AccountUpdateVersions::V0_0_3(event) ==> {
                &&& !self.allows(event.owner@) ==> r == Ok::<Step, PluginError>(
                    Step::Done(Outcome::Skipped),
                )
                &&& self.allows(event.owner@) ==> match upsert_request(event.record()) {
                    Some(request) => r matches Ok(Step::Upsert(prepared)) && prepared@ == request,
                    None => r == Ok::<Step, PluginError>(
                        Step::Done(Outcome::ForwardFailed(ForwardError::Serialize)),
                    ),
                }
            },
            account is V0_0_3 && self.allowed_programs().len() == 0 ==> r == Ok::<
                Step,
                PluginError,
            >(Step::Done(Outcome::Skipped)),
    {
        let event = match account {
            AccountUpdateVersions::V0_0_1 => {
                return Err(PluginError::AccountsUpdateError(LegacyVersion::V0_0_1));
            },
            AccountUpdateVersions::V0_0_2 => {
                return Err(PluginError::AccountsUpdateError(LegacyVersion::V0_0_2));
            },
            AccountUpdateVersions::V0_0_3(event) => event,
        };
        proof {
            use_type_invariant(self);
        }
        match (&self.configuration, &self.postgres_client) {
            (Some(configuration), Some(client)) => {
                if !IdentityFilter::is_relevant(&event.owner, &configuration.allowed_programs) {
                    return Ok(Step::Done(Outcome::Skipped));
                }
                let record = AccountRecord::new(
                    &event.address,
                    &event.owner,
                    event.data,
                    event.executable,
                );
                match client.begin_upsert(record) {
                    Ok(request) => Ok(Step::Upsert(request)),
                    Err(e) => Ok(Step::Done(Outcome::ForwardFailed(e))),
                }
            },
            _ => Ok(Step::Done(Outcome::Skipped)),
        }
    }

    /// Names the outcome of an upsert by the reply to it: forwarded on a 2xx
    /// status, failed on anything else. A failure is an outcome like the
    /// others, not an error of the sink.
    pub fn complete_upsert(&self, reply: UpsertReply) -> (outcome: Outcome)
        ensures
            outcome == outcome_of(reply),
            reply is NoResponse ==> outcome == Outcome::ForwardFailed(ForwardError::Transport),
    {
        match ForwardingClient::finish_upsert(reply) {
            Ok(_) => Outcome::Forwarded,
            Err(e) => Outcome::ForwardFailed(e),
        }
    }

    /// Called when the host has replayed its startup state. Nothing to do.
    pub fn notify_end_of_startup(&self) -> (r: Result<(), PluginError>)
        ensures
            r is Ok,
    {
        Ok(())
    }

    /// The sink wants account notifications.
    pub fn account_data_notifications_enabled(&self) -> (enabled: bool)
        ensures
            enabled,
    {
        true
    }

    /// The sink wants no transaction notifications.
    pub fn transaction_notifications_enabled(&self) -> (enabled: bool)
        ensures
            !enabled,
    {
        false
    }
}

impl Default for PostgresPlugin {
    fn default() -> (plugin: PostgresPlugin)
        ensures
            plugin.spec_configuration() is None,
    {
        PostgresPlugin::new()
    }
}

} // verus!
