use geyser_sink::codec::FixedKey32;
use geyser_sink::config::{ConfigError, ConfigFile, ConfigSource};
use geyser_sink::forward::{ForwardError, UpsertReply};
use geyser_sink::sink::{
    AccountUpdateEvent, AccountUpdateVersions, LegacyVersion, Outcome, PluginError,
    PostgresPlugin, Step,
};

const TOKEN_PROGRAM: FixedKey32 = [
    6, 221, 246, 225, 215, 101, 161, 147, 217, 203, 225, 70, 206, 235, 121, 172, 28, 180, 133,
    237, 95, 91, 55, 145, 58, 140, 245, 133, 126, 255, 0, 169,
];

const TOKEN_PROGRAM_TEXT: &str = "TokenkegQfeZyiNwAJbNbGKPFXCWuBvf9Ss623VQ5DA";

const SYSTEM_PROGRAM_TEXT: &str = "11111111111111111111111111111111";

fn source(programs: Option<Vec<&str>>) -> ConfigSource {
    ConfigSource::Parsed(ConfigFile {
        supabase_url: String::from("https://store.example/rest/v1"),
        supabase_key: String::from("SECRET-REDACTED"),
        programs: programs.map(|list| list.into_iter().map(String::from).collect()),
    })
}

fn loaded(programs: Option<Vec<&str>>) -> PostgresPlugin {
    let mut plugin = PostgresPlugin::new();
    assert_eq!(plugin.on_load(source(programs)), Ok(()));
    plugin
}

fn event<'a>(address: FixedKey32, owner: FixedKey32, data: &'a [u8]) -> AccountUpdateEvent<'a> {
    AccountUpdateEvent {
        address,
        owner,
        data,
        executable: false,
        lamports: 1_000_000,
        rent_epoch: 361,
        slot: 4,
    }
}

fn expect_skipped(step: Result<Step, PluginError>) {
    match step {
        Ok(Step::Done(outcome)) => assert_eq!(outcome, Outcome::Skipped),
        Ok(Step::Upsert(_)) => panic!("an upsert was prepared"),
        Err(e) => panic!("rejected: {}", e.message()),
    }
}

#[test]
fn new_sink_is_inactive() {
    let plugin = PostgresPlugin::new();
    assert!(!plugin.is_loaded());
    assert!(plugin.configuration().is_none());
    assert!(plugin.client().is_none());
}

#[test]
fn default_sink_is_inactive() {
    let plugin = PostgresPlugin::default();
    assert!(!plugin.is_loaded());
    assert!(plugin.configuration().is_none());
    assert!(plugin.client().is_none());
}

#[test]
fn sink_is_named_geyser() {
    assert_eq!(PostgresPlugin::new().name(), "geyser");
}

#[test]
fn sink_wants_accounts_and_no_transactions() {
    let plugin = PostgresPlugin::new();
    assert!(plugin.account_data_notifications_enabled());
    assert!(!plugin.transaction_notifications_enabled());
    assert_eq!(plugin.notify_end_of_startup(), Ok(()));
}

#[test]
fn load_activates_the_sink() {
    let plugin = loaded(Some(vec![TOKEN_PROGRAM_TEXT]));
    assert!(plugin.is_loaded());
    let configuration = plugin.configuration().unwrap();
    assert_eq!(configuration.supabase_url, "https://store.example/rest/v1");
    assert_eq!(configuration.supabase_key, "SECRET-REDACTED");
    assert_eq!(configuration.allowed_programs, vec![TOKEN_PROGRAM]);
    let client = plugin.client().unwrap();
    assert_eq!(client.endpoint(), "https://store.example/rest/v1");
    assert_eq!(client.credential(), "SECRET-REDACTED");
}

#[test]
fn failed_load_leaves_the_sink_inactive() {
    let mut plugin = PostgresPlugin::new();
    assert_eq!(
        plugin.on_load(ConfigSource::Unreadable),
        Err(PluginError::ConfigFileReadError(ConfigError::IO))
    );
    assert!(!plugin.is_loaded());
    assert_eq!(
        plugin.on_load(ConfigSource::Malformed),
        Err(PluginError::ConfigFileReadError(ConfigError::Parse))
    );
    assert!(!plugin.is_loaded());
    assert_eq!(
        plugin.on_load(source(Some(vec!["not an identity"]))),
        Err(PluginError::ConfigFileReadError(ConfigError::InvalidIdentity))
    );
    assert!(!plugin.is_loaded());
    assert!(plugin.client().is_none());
}

#[test]
fn failed_reload_keeps_the_configuration_in_use() {
    let mut plugin = loaded(Some(vec![TOKEN_PROGRAM_TEXT]));
    assert_eq!(
        plugin.on_load(ConfigSource::Malformed),
        Err(PluginError::ConfigFileReadError(ConfigError::Parse))
    );
    assert!(plugin.is_loaded());
    assert_eq!(plugin.configuration().unwrap().allowed_programs, vec![TOKEN_PROGRAM]);
}

#[test]
fn unload_changes_nothing() {
    let mut plugin = loaded(Some(vec![TOKEN_PROGRAM_TEXT]));
    plugin.on_unload();
    assert!(plugin.is_loaded());
    assert_eq!(plugin.configuration().unwrap().allowed_programs, vec![TOKEN_PROGRAM]);
}

#[test]
fn error_messages() {
    assert_eq!(
        PluginError::ConfigFileReadError(ConfigError::IO).message(),
        "Error opening, or reading config file"
    );
    assert_eq!(
        PluginError::ConfigFileReadError(ConfigError::InvalidIdentity).message(),
        "Error opening, or reading config file"
    );
    assert_eq!(
        PluginError::AccountsUpdateError(LegacyVersion::V0_0_1).message(),
        "V1 not supported, please upgrade your Solana CLI Version"
    );
    assert_eq!(
        PluginError::AccountsUpdateError(LegacyVersion::V0_0_2).message(),
        "V2 not supported, please upgrade your Solana CLI Version"
    );
}

#[test]
fn owner_outside_the_allow_list_is_skipped() {
    // allowed = {token program}, owner = system program
    let plugin = loaded(Some(vec![TOKEN_PROGRAM_TEXT]));
    let update = AccountUpdateVersions::V0_0_3(event([7u8; 32], [0u8; 32], &[1, 2, 3]));
    expect_skipped(plugin.update_account(update));
}

#[test]
fn empty_allow_list_skips_every_owner() {
    let without_list = loaded(None);
    let with_empty_list = loaded(Some(vec![]));
    for owner in [[0u8; 32], [1u8; 32], TOKEN_PROGRAM, [255u8; 32]] {
        let update = AccountUpdateVersions::V0_0_3(event([7u8; 32], owner, &[1]));
        expect_skipped(without_list.update_account(update));
        expect_skipped(with_empty_list.update_account(update));
    }
}

#[test]
fn inactive_sink_skips_every_owner() {
    let plugin = PostgresPlugin::new();
    for owner in [[0u8; 32], TOKEN_PROGRAM] {
        let update = AccountUpdateVersions::V0_0_3(event([7u8; 32], owner, &[1]));
        expect_skipped(plugin.update_account(update));
    }
}

#[test]
fn allowed_owner_gets_one_upsert_with_the_record() {
    let plugin = loaded(Some(vec![SYSTEM_PROGRAM_TEXT, TOKEN_PROGRAM_TEXT]));
    let data = [10u8, 20, 30];
    let mut changed = event([0u8; 32], TOKEN_PROGRAM, &data);
    changed.executable = true;
    match plugin.update_account(AccountUpdateVersions::V0_0_3(changed)) {
        Ok(Step::Upsert(request)) => {
            assert_eq!(request.resource, "accounts");
            assert_eq!(request.record.account, SYSTEM_PROGRAM_TEXT);
            assert_eq!(request.record.owner, TOKEN_PROGRAM_TEXT);
            assert_eq!(request.record.data, vec![10, 20, 30]);
            assert!(request.record.executable);
            assert_eq!(
                request.body,
                "[{\"account\":\"11111111111111111111111111111111\",\"data\":[10,20,30],\
                 \"executable\":true,\"owner\":\"TokenkegQfeZyiNwAJbNbGKPFXCWuBvf9Ss623VQ5DA\"}]"
            );
        },
        Ok(Step::Done(outcome)) => panic!("nothing was prepared: {:?}", outcome),
        Err(e) => panic!("rejected: {}", e.message()),
    }
}

#[test]
fn balance_rent_epoch_and_slot_are_not_forwarded() {
    let plugin = loaded(Some(vec![TOKEN_PROGRAM_TEXT]));
    let mut first = event([3u8; 32], TOKEN_PROGRAM, &[1]);
    first.lamports = 5;
    first.rent_epoch = 6;
    first.slot = 7;
    let mut second = event([3u8; 32], TOKEN_PROGRAM, &[1]);
    second.lamports = 50;
    second.rent_epoch = 60;
    second.slot = 70;
    let bodies: Vec<String> = [first, second]
        .into_iter()
        .map(|e| match plugin.update_account(AccountUpdateVersions::V0_0_3(e)) {
            Ok(Step::Upsert(request)) => request.body,
            _ => panic!("no upsert was prepared"),
        })
        .collect();
    assert_eq!(bodies[0], bodies[1]);
    let parsed: serde_json::Value = serde_json::from_str(&bodies[0]).unwrap();
    let row = parsed[0].as_object().unwrap();
    let mut fields: Vec<&str> = row.keys().map(|k| k.as_str()).collect();
    fields.sort();
    assert_eq!(fields, vec!["account", "data", "executable", "owner"]);
}

#[test]
fn legacy_versions_are_rejected() {
    let plugin = loaded(Some(vec![TOKEN_PROGRAM_TEXT]));
    match plugin.update_account(AccountUpdateVersions::V0_0_1) {
        Err(e) => assert_eq!(e, PluginError::AccountsUpdateError(LegacyVersion::V0_0_1)),
        Ok(_) => panic!("a legacy notification was accepted"),
    }
    match plugin.update_account(AccountUpdateVersions::V0_0_2) {
        Err(e) => assert_eq!(e, PluginError::AccountsUpdateError(LegacyVersion::V0_0_2)),
        Ok(_) => panic!("a legacy notification was accepted"),
    }
}

#[test]
fn legacy_versions_are_rejected_by_an_inactive_sink_too() {
    let plugin = PostgresPlugin::new();
    assert!(matches!(
        plugin.update_account(AccountUpdateVersions::V0_0_1),
        Err(PluginError::AccountsUpdateError(LegacyVersion::V0_0_1))
    ));
    assert!(matches!(
        plugin.update_account(AccountUpdateVersions::V0_0_2),
        Err(PluginError::AccountsUpdateError(LegacyVersion::V0_0_2))
    ));
}

#[test]
fn transport_failure_is_a_failed_forward() {
    let plugin = loaded(Some(vec![TOKEN_PROGRAM_TEXT]));
    let update = AccountUpdateVersions::V0_0_3(event([1u8; 32], TOKEN_PROGRAM, &[]));
    assert!(matches!(plugin.update_account(update), Ok(Step::Upsert(_))));
    assert_eq!(
        plugin.complete_upsert(UpsertReply::NoResponse),
        Outcome::ForwardFailed(ForwardError::Transport)
    );
}

#[test]
fn refused_write_is_a_failed_forward() {
    let plugin = loaded(Some(vec![TOKEN_PROGRAM_TEXT]));
    for status in [199u16, 300, 400, 401, 404, 500] {
        assert_eq!(
            plugin.complete_upsert(UpsertReply::Status(status)),
            Outcome::ForwardFailed(ForwardError::Remote)
        );
    }
}

#[test]
fn accepted_write_is_forwarded() {
    let plugin = loaded(Some(vec![TOKEN_PROGRAM_TEXT]));
    for status in [200u16, 201, 204, 299] {
        assert_eq!(plugin.complete_upsert(UpsertReply::Status(status)), Outcome::Forwarded);
    }
}

#[test]
fn updates_are_independent_of_each_other() {
    let plugin = loaded(Some(vec![TOKEN_PROGRAM_TEXT]));
    let relevant = AccountUpdateVersions::V0_0_3(event([1u8; 32], TOKEN_PROGRAM, &[1]));
    let other = AccountUpdateVersions::V0_0_3(event([1u8; 32], [2u8; 32], &[1]));
    assert!(matches!(plugin.update_account(relevant), Ok(Step::Upsert(_))));
    expect_skipped(plugin.update_account(other));
    assert_eq!(
        plugin.complete_upsert(UpsertReply::NoResponse),
        Outcome::ForwardFailed(ForwardError::Transport)
    );
    assert!(matches!(plugin.update_account(relevant), Ok(Step::Upsert(_))));
    expect_skipped(plugin.update_account(other));
}
