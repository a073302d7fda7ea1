//! The forwarding protocol: one matched account becomes one upsert into the
//! remote store, and the store's reply becomes success or a failure.

use vstd::prelude::*;
use vstd::slice::slice_to_vec;
use crate::codec::{base58_encoded, FixedKey32, IdentityCodec};
use crate::config::Configuration;

verus! {

/// The remote resource that accounts are written to.
pub const ACCOUNTS_RESOURCE: &'static str = "accounts";

/// The request header that carries the credential.
pub const CREDENTIAL_HEADER: &'static str = "apikey";

/// The longest that one upsert may take before it counts as failed.
pub const UPSERT_TIMEOUT_SECS: u64 = 10;

/// Name of the record field that holds the account's address; the remote
/// store keys the upsert by it.
pub const ACCOUNT_FIELD: &'static str = "account";

/// Name of the record field that holds the owning program.
pub const OWNER_FIELD: &'static str = "owner";

/// Name of the record field that holds the account's data.
pub const DATA_FIELD: &'static str = "data";

/// Name of the record field that tells whether the account is a program.
pub const EXECUTABLE_FIELD: &'static str = "executable";

/// Why an account did not reach the remote store.
#[derive(Clone, Copy, Debug, PartialEq, Eq, Structural)]
pub enum ForwardError {
    /// The store could not be reached, or did not answer in time.
    Transport,
    /// The store answered and refused the write.
    Remote,
    /// The record could not be encoded.
    Serialize,
}

/// What the transport has to say of one upsert.
#[derive(Clone, Copy, Debug, PartialEq, Eq, Structural)]
pub enum UpsertReply {
    /// No response: the connection failed or the time ran out.
    NoResponse,
    /// The store responded with this HTTP status.
    Status(u16),
}

/// The row written for one account.
#[derive(Clone, Debug)]
pub struct AccountRecord {
    /// Base58 form of the account's address.
    pub account: String,
    /// Base58 form of the owning program's identity.
    pub owner: String,
    /// The account's data, as it came.
    pub data: Vec<u8>,
    /// Whether the account holds a program.
    pub executable: bool,
}

/// A record as plain values.
pub struct AccountRecordView {
    pub account: Seq<char>,
    pub owner: Seq<char>,
    pub data: Seq<u8>,
    pub executable: bool,
}

impl View for AccountRecord {
    type V = AccountRecordView;

    open spec fn view(&self) -> AccountRecordView {
        AccountRecordView {
            account: self.account@,
            owner: self.owner@,
            data: self.data@,
            executable: self.executable,
        }
    }
}

/// The error type of `serde_json`, carried through unread.
#[verifier::external_type_specification]
#[verifier::external_body]
pub struct ExJsonError(serde_json::Error);

/// The JSON text that `serde_json` writes for an array holding one object of
/// four members: two texts, a list of bytes and a flag, under the given
/// names. `None` where it writes none.
pub uninterp spec fn json_row_text(
    account_field: Seq<char>,
    account: Seq<char>,
    owner_field: Seq<char>,
    owner: Seq<char>,
    data_field: Seq<char>,
    data: Seq<u8>,
    executable_field: Seq<char>,
    executable: bool,
) -> Option<Seq<char>>;

/// `serde_json::to_string` on an array that holds one object with the four
/// given members.
///
/// Trusted: whether text comes back, and which, depends on the arguments
/// alone.
#[verifier::external_body]
fn json_row(
    account_field: &str,
    account: &str,
    owner_field: &str,
    owner: &str,
    data_field: &str,
    data: &[u8],
    executable_field: &str,
    executable: bool,
) -> (r: Result<String, serde_json::Error>)
    ensures
        match r {
            Ok(text) => json_row_text(
                account_field@,
                account@,
                owner_field@,
                owner@,
                data_field@,
                data@,
                executable_field@,
                executable,
            ) == Some(text@),
            Err(_) => json_row_text(
                account_field@,
                account@,
                owner_field@,
                owner@,
                data_field@,
                data@,
                executable_field@,
                executable,
            ) is None,
        },
{
    let mut row = serde_json::Map::new();
    row.insert(account_field.to_string(), serde_json::Value::from(account));
    row.insert(owner_field.to_string(), serde_json::Value::from(owner));
    row.insert(data_field.to_string(), serde_json::Value::from(data));
    row.insert(executable_field.to_string(), serde_json::Value::from(executable));
    serde_json::to_string(&serde_json::Value::Array(vec![serde_json::Value::Object(row)]))
}

/// The request body for a record: a JSON array with the record as its one
/// object. `None` where the record cannot be encoded.
pub open spec fn upsert_body(record: AccountRecordView) -> Option<Seq<char>> {
    json_row_text(
        ACCOUNT_FIELD@,
        record.account,
        OWNER_FIELD@,
        record.owner,
        DATA_FIELD@,
        record.data,
        EXECUTABLE_FIELD@,
        record.executable,
    )
}

/// The record of an account: both identities in base58, data and flag as
/// they are.
pub open spec fn record_of(
    address: Seq<u8>,
    owner: Seq<u8>,
    data: Seq<u8>,
    executable: bool,
) -> AccountRecordView {
    AccountRecordView {
        account: base58_encoded(address),
        owner: base58_encoded(owner),
        data,
        executable,
    }
}

impl AccountRecord {
    /// Builds the record of an account.
    pub fn new(address: &FixedKey32, owner: &FixedKey32, data: &[u8], executable: bool) -> (record:
        AccountRecord)
        ensures
            record@ == record_of(address@, owner@, data@, executable),
    {
        AccountRecord {
            account: IdentityCodec::encode(address),
            owner: IdentityCodec::encode(owner),
            data: slice_to_vec(data),
            executable,
        }
    }
}

/// One upsert, ready to be sent.
#[derive(Clone, Debug)]
pub struct UpsertRequest {
    /// The remote resource to write to.
    pub resource: &'static str,
    /// The record to write.
    pub record: AccountRecord,
    /// The request body: the record as a JSON array of one object.
    pub body: String,
}

/// A request as plain values.
pub struct UpsertRequestView {
    pub resource: Seq<char>,
    pub record: AccountRecordView,
    pub body: Seq<char>,
}

impl View for UpsertRequest {
    type V = UpsertRequestView;

    open spec fn view(&self) -> UpsertRequestView {
        UpsertRequestView { resource: self.resource@, record: self.record@, body: self.body@ }
    }
}

/// The one request that writes a record; `None` where the record cannot be
/// encoded.
pub open spec fn upsert_request(record: AccountRecordView) -> Option<UpsertRequestView> {
    match upsert_body(record) {
        Some(body) => Some(UpsertRequestView { resource: ACCOUNTS_RESOURCE@, record, body }),
        None => None,
    }
}

/// What an upsert came to, by the transport's reply: success on a 2xx
/// status, and a failure on anything else.
pub open spec fn upsert_result(reply: UpsertReply) -> Result<(), ForwardError> {
    match reply {
        UpsertReply::NoResponse => Err(ForwardError::Transport),
        UpsertReply::Status(status) => if 200 <= status < 300 {
            Ok(())
        } else {
            Err(ForwardError::Remote)
        },
    }
}

/// The sink's side of the connection to the remote store.
pub struct ForwardingClient {
    endpoint: String,
    credential: String,
}

impl ForwardingClient {
    /// The endpoint that requests go to.
    pub closed spec fn spec_endpoint(&self) -> Seq<char> {
        self.endpoint@
    }

    /// The credential that requests carry.
    pub closed spec fn spec_credential(&self) -> Seq<char> {
        self.credential@
    }

    /// A client for the store that the configuration names.
    pub fn new(configuration: &Configuration) -> (client: ForwardingClient)
        ensures
            client.spec_endpoint() == configuration@.supabase_url,
            client.spec_credential() == configuration@.supabase_key,
    {
        ForwardingClient {
            endpoint: configuration.supabase_url.clone(),
            credential: configuration.supabase_key.clone(),
        }
    }

    /// The endpoint that requests go to.
    pub fn endpoint(&self) -> (endpoint: &str)
        ensures
            endpoint@ == self.spec_endpoint(),
    {
        self.endpoint.as_str()
    }

    /// The credential that requests carry, under `CREDENTIAL_HEADER`.
    pub fn credential(&self) -> (credential: &str)
        ensures
            credential@ == self.spec_credential(),
    {
        self.credential.as_str()
    }

    /// Prepares the upsert of one record: a single request to the accounts
    /// resource, whose body holds the record alone.
    pub fn begin_upsert(&self, record: AccountRecord) -> (r: Result<UpsertRequest, ForwardError>)
        ensures
            match r {
                Ok(request) => upsert_request(record@) == Some(request@),
                Err(e) => e == ForwardError::Serialize && upsert_request(record@) is None,
            },
    {
        let encoded = json_row(
            ACCOUNT_FIELD,
            record.account.as_str(),
            OWNER_FIELD,
            record.owner.as_str(),
            DATA_FIELD,
            record.data.as_slice(),
            EXECUTABLE_FIELD,
            record.executable,
        );
        match encoded {
            Ok(body) => Ok(UpsertRequest { resource: ACCOUNTS_RESOURCE, record, body }),
            Err(_) => Err(ForwardError::Serialize),
        }
    }

    /// Judges the reply to an upsert. Nothing is retried: a failure stands.
    pub fn finish_upsert(reply: UpsertReply) -> (r: Result<(), ForwardError>)
        ensures
            r == upsert_result(reply),
    {
        match reply {
            UpsertReply::NoResponse => Err(ForwardError::Transport),
            UpsertReply::Status(status) => {
                if 200 <= status && status < 300 {
                    Ok(())
                } else {
                    Err(ForwardError::Remote)
                }
            },
        }
    }
}

} // verus!
