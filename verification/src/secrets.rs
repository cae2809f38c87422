//! The secret store: a facade over the platform credential vault that admits
//! only the keys of a fixed allow-list. Nothing is cached: every read, write
//! and removal goes to the vault.

use vstd::prelude::*;

use crate::error::{ErrorKind, ErrorView, VaultOp};

verus! {

/// The allow-list, in its declared order.
pub open spec fn supported_secret_keys() -> Seq<Seq<char>> {
    seq![
        "GROQ_API_KEY"@,
        "OPENROUTER_API_KEY"@,
        "FRED_API_KEY"@,
        "EIA_API_KEY"@,
        "CLOUDFLARE_API_TOKEN"@,
        "ACLED_ACCESS_TOKEN"@,
        "WINGBITS_API_KEY"@,
        "WS_RELAY_URL"@,
        "VITE_OPENSKY_RELAY_URL"@,
        "OPENSKY_CLIENT_ID"@,
        "OPENSKY_CLIENT_SECRET"@,
        "AISSTREAM_API_KEY"@,
        "VITE_WS_RELAY_URL"@,
    ]
}

/// Whether `key` is on the allow-list.
pub open spec fn is_supported_key(key: Seq<char>) -> bool {
    supported_secret_keys().contains(key)
}

/// The service under which every entry of this store is filed in the vault.
pub const KEYRING_SERVICE: &'static str = "world-monitor";

/// What a vault call failed with, as far as the store tells failures apart.
#[derive(Clone, Debug, PartialEq, Eq)]
pub struct VaultFault {
    /// The vault holds no record for the entry.
    pub no_entry: bool,
    /// The vault's own description of the failure.
    pub detail: String,
}

#[verifier::external_type_specification]
#[verifier::external_body]
pub struct ExEntry(keyring::Entry);

#[verifier::external_type_specification]
#[verifier::external_body]
pub struct ExKeyringError(keyring::Error);

/// `keyring::Entry::new`. The store opens entries under its own service and
/// for keys of the allow-list only, which is what callers have to show.
/// Whether the vault admits the pair, and with which error it refuses, is the
/// platform's affair: nothing is claimed of the result. (It panics only if the
/// crate's own builder lock was poisoned by a panic.)
#[verifier::external_body]
fn open_entry(service: &str, user: &str) -> (opened: Result<keyring::Entry, keyring::Error>)
    requires
        service@ == KEYRING_SERVICE@,
        is_supported_key(user@),
{
    keyring::Entry::new(service, user)
}

/// `keyring::Entry::get_password`. The outcome depends on what the vault
/// holds: nothing is claimed of it.
#[verifier::external_body]
fn entry_password(entry: &keyring::Entry) -> (got: Result<String, keyring::Error>) {
    entry.get_password()
}

/// `keyring::Entry::set_password`. The outcome depends on the vault: nothing
/// is claimed of it.
#[verifier::external_body]
fn entry_set_password(entry: &keyring::Entry, value: &str) -> (done: Result<(), keyring::Error>) {
    entry.set_password(value)
}

/// `keyring::Entry::delete_credential`. The outcome depends on what the vault
/// holds: nothing is claimed of it.
#[verifier::external_body]
fn entry_delete(entry: &keyring::Entry) -> (done: Result<(), keyring::Error>) {
    entry.delete_credential()
}

/// Takes from a `keyring::Error` whether it is the variant `NoEntry`, and the
/// text that its `Display` gives. The error is opaque here, so nothing is
/// claimed of the result.
#[verifier::external_body]
fn fault_of(e: keyring::Error) -> (fault: VaultFault) {
    VaultFault { no_entry: matches!(e, keyring::Error::NoEntry), detail: e.to_string() }
}

/// The allow-list as data.
fn key_table() -> (table: Vec<&'static str>)
    ensures
        table@.len() == supported_secret_keys().len(),
        forall|i: int| 0 <= i < table@.len() ==> (#[trigger] table@[i])@ == supported_secret_keys()[i],
{
    vec![
        "GROQ_API_KEY",
        "OPENROUTER_API_KEY",
        "FRED_API_KEY",
        "EIA_API_KEY",
        "CLOUDFLARE_API_TOKEN",
        "ACLED_ACCESS_TOKEN",
        "WINGBITS_API_KEY",
        "WS_RELAY_URL",
        "VITE_OPENSKY_RELAY_URL",
        "OPENSKY_CLIENT_ID",
        "OPENSKY_CLIENT_SECRET",
        "AISSTREAM_API_KEY",
        "VITE_WS_RELAY_URL",
    ]
}

/// The fixed allow-list, in its declared order.
pub fn list_supported_secret_keys() -> (keys: Vec<String>)
    ensures
        keys@.len() == supported_secret_keys().len(),
        forall|i: int| 0 <= i < keys@.len() ==> (#[trigger] keys@[i])@ == supported_secret_keys()[i],
{
    let table = key_table();
    let mut keys: Vec<String> = Vec::new();
    let mut i: usize = 0;
    while i < table.len()
        invariant
            i <= table@.len(),
            table@.len() == supported_secret_keys().len(),
            forall|j: int| 0 <= j < table@.len() ==> (#[trigger] table@[j])@ == supported_secret_keys()[j],
            keys@.len() == i,
            forall|j: int| 0 <= j < i ==> (#[trigger] keys@[j])@ == supported_secret_keys()[j],
        decreases table@.len() - i,
    {
        keys.push(table[i].to_owned());
        i += 1;
    }
    keys
}

/// Checks `key` against the allow-list. Touches nothing else.
pub fn validate(key: &str) -> (checked: Result<(), ErrorKind>)
    ensures
        is_supported_key(key@) ==> checked is Ok,
        !is_supported_key(key@) ==> (checked matches Err(e) && e@ == ErrorView::UnsupportedKey(key@)),
{
    let table = key_table();
    let wanted: String = key.to_owned();
    let mut i: usize = 0;
    while i < table.len()
        invariant
            i <= table@.len(),
            wanted@ == key@,
            table@.len() == supported_secret_keys().len(),
            forall|j: int| 0 <= j < table@.len() ==> (#[trigger] table@[j])@ == supported_secret_keys()[j],
            forall|j: int| 0 <= j < i ==> supported_secret_keys()[j] != key@,
        decreases table@.len() - i,
    {
        let listed: String = table[i].to_owned();
        if listed == wanted {
            assert(supported_secret_keys()[i as int] == key@);
            return Ok(());
        }
        i += 1;
    }
    Err(ErrorKind::UnsupportedKey(wanted))
}

/// The error for a vault operation that failed with `fault`.
pub fn vault_error(op: VaultOp, fault: VaultFault) -> (e: ErrorKind)
    ensures
        e@ == (ErrorView::VaultAccess { op, detail: fault.detail@ }),
{
    ErrorKind::VaultAccess { op, detail: fault.detail }
}

/// What a read returns for each answer of the vault: the stored value, `None`
/// where the vault holds no record, an error for every other failure.
pub fn read_outcome(got: Result<String, VaultFault>) -> (r: Result<Option<String>, ErrorKind>)
    ensures
        match got {
            Ok(value) => r matches Ok(Some(s)) && s@ == value@,
            Err(fault) => if fault.no_entry {
                r == Ok::<Option<String>, ErrorKind>(None)
            } else {
                r matches Err(e) && e@ == (ErrorView::VaultAccess {
                    op: VaultOp::Read,
                    detail: fault.detail@,
                })
            },
        },
{
    match got {
        Ok(value) => Ok(Some(value)),
        Err(fault) => if fault.no_entry {
            Ok(None)
        } else {
            Err(vault_error(VaultOp::Read, fault))
        },
    }
}

/// What a write returns for each answer of the vault: every failure is an
/// error, a missing record too.
pub fn write_outcome(done: Result<(), VaultFault>) -> (r: Result<(), ErrorKind>)
    ensures
        match done {
            Ok(_) => r is Ok,
            Err(fault) => r matches Err(e) && e@ == (ErrorView::VaultAccess {
                op: VaultOp::Write,
                detail: fault.detail@,
            }),
        },
{
    match done {
        Ok(_) => Ok(()),
        Err(fault) => Err(vault_error(VaultOp::Write, fault)),
    }
}

/// What a removal returns for each answer of the vault: removing what is not
/// there succeeds, every other failure is an error.
pub fn delete_outcome(done: Result<(), VaultFault>) -> (r: Result<(), ErrorKind>)
    ensures
        match done {
            Ok(_) => r is Ok,
            Err(fault) => if fault.no_entry {
                r is Ok
            } else {
                r matches Err(e) && e@ == (ErrorView::VaultAccess {
                    op: VaultOp::Delete,
                    detail: fault.detail@,
                })
            },
        },
{
    match done {
        Ok(_) => Ok(()),
        Err(fault) => if fault.no_entry {
            Ok(())
        } else {
            Err(vault_error(VaultOp::Delete, fault))
        },
    }
}

/// Whether `e` is a vault failure during `op`.
pub open spec fn is_vault_failure(e: ErrorView, op: VaultOp) -> bool {
    e matches ErrorView::VaultAccess { op: failed, .. } && failed == op
}

/// One request to the vault: what is done, under which service and account,
/// and with which value.
#[derive(Clone, Debug, PartialEq, Eq)]
pub struct VaultRequest {
    /// What is asked of the vault.
    pub op: VaultOp,
    /// The service that the entry is filed under.
    pub service: String,
    /// The account of the entry: the key.
    pub account: String,
    /// The value to store; only a write has one.
    pub value: Option<String>,
}

impl VaultRequest {
    /// The text of the value to store, if there is one.
    pub open spec fn value_text(self) -> Option<Seq<char>> {
        match self.value {
            Some(v) => Some(v@),
            None => None,
        }
    }

    /// Whether this is the request for `op` on the entry of `key` under the
    /// store's service, with `value` to store.
    pub open spec fn is_for(self, op: VaultOp, key: Seq<char>, value: Option<Seq<char>>) -> bool {
        &&& self.op == op
        &&& self.service@ == KEYRING_SERVICE@
        &&& self.account@ == key
        &&& self.value_text() == value
    }

    /// Whether the store may send this request: it addresses the entry of a
    /// key on the allow-list under the store's service, and carries a value
    /// exactly when it is a write.
    pub open spec fn admissible(self) -> bool {
        &&& self.service@ == KEYRING_SERVICE@
        &&& is_supported_key(self.account@)
        &&& self.value is Some <==> self.op == VaultOp::Write
    }
}

/// The request for `op` on the entry of `key`, if the key is on the allow-list.
fn request_for(op: VaultOp, key: &str, value: Option<String>) -> (r: Result<VaultRequest, ErrorKind>)
    ensures
        is_supported_key(key@) ==> (r matches Ok(q) && q.op == op && q.service@
            == KEYRING_SERVICE@ && q.account@ == key@ && q.value == value),
        !is_supported_key(key@) ==> (r matches Err(e) && e@ == ErrorView::UnsupportedKey(key@)),
{
    match validate(key) {
        Ok(_) => {},
        Err(e) => {
            return Err(e);
        },
    }
    Ok(VaultRequest { op, service: KEYRING_SERVICE.to_owned(), account: key.to_owned(), value })
}

/// The request that opens the entry of `key`. There is none for a key off the
/// allow-list.
pub fn entry_request(key: &str) -> (r: Result<VaultRequest, ErrorKind>)
    ensures
        is_supported_key(key@) ==> (r matches Ok(q) && q.is_for(VaultOp::Init, key@, None)),
        !is_supported_key(key@) ==> (r matches Err(e) && e@ == ErrorView::UnsupportedKey(key@)),
{
    request_for(VaultOp::Init, key, None)
}

/// The request that reads the value stored under `key`. There is none for a
/// key off the allow-list.
pub fn read_request(key: &str) -> (r: Result<VaultRequest, ErrorKind>)
    ensures
        is_supported_key(key@) ==> (r matches Ok(q) && q.is_for(VaultOp::Read, key@, None)),
        !is_supported_key(key@) ==> (r matches Err(e) && e@ == ErrorView::UnsupportedKey(key@)),
{
    request_for(VaultOp::Read, key, None)
}

/// The request that stores `value` under `key`, whatever is stored there.
/// There is none for a key off the allow-list.
pub fn write_request(key: &str, value: String) -> (r: Result<VaultRequest, ErrorKind>)
    ensures
        is_supported_key(key@) ==> (r matches Ok(q) && q.is_for(
            VaultOp::Write,
            key@,
            Some(value@),
        )),
        !is_supported_key(key@) ==> (r matches Err(e) && e@ == ErrorView::UnsupportedKey(key@)),
{
    request_for(VaultOp::Write, key, Some(value))
}

/// The request that removes the value stored under `key`. There is none for
/// a key off the allow-list.
pub fn delete_request(key: &str) -> (r: Result<VaultRequest, ErrorKind>)
    ensures
        is_supported_key(key@) ==> (r matches Ok(q) && q.is_for(VaultOp::Delete, key@, None)),
        !is_supported_key(key@) ==> (r matches Err(e) && e@ == ErrorView::UnsupportedKey(key@)),
{
    request_for(VaultOp::Delete, key, None)
}

/// Opens the entry that `q` addresses.
fn open_requested(q: &VaultRequest) -> (opened: Result<keyring::Entry, ErrorKind>)
    requires
        q.admissible(),
    ensures
        opened matches Err(e) ==> is_vault_failure(e@, VaultOp::Init),
{
    match open_entry(q.service.as_str(), q.account.as_str()) {
        Ok(entry) => Ok(entry),
        Err(e) => Err(vault_error(VaultOp::Init, fault_of(e))),
    }
}

/// Sends a read request: one read of the entry that it addresses.
fn send_read(q: &VaultRequest) -> (r: Result<Option<String>, ErrorKind>)
    requires
        q.admissible(),
        q.op == VaultOp::Read,
    ensures
        r matches Err(e) ==> is_vault_failure(e@, VaultOp::Init) || is_vault_failure(
            e@,
            VaultOp::Read,
        ),
{
    let entry = match open_requested(q) {
        Ok(entry) => entry,
        Err(e) => {
            return Err(e);
        },
    };
    let got = match entry_password(&entry) {
        Ok(value) => Ok(value),
        Err(e) => Err(fault_of(e)),
    };
    read_outcome(got)
}

/// Sends a write request: one write of its value to the entry that it
/// addresses.
fn send_write(q: &VaultRequest) -> (r: Result<(), ErrorKind>)
    requires
        q.admissible(),
        q.op == VaultOp::Write,
    ensures
        r matches Err(e) ==> is_vault_failure(e@, VaultOp::Init) || is_vault_failure(
            e@,
            VaultOp::Write,
        ),
{
    let entry = match open_requested(q) {
        Ok(entry) => entry,
        Err(e) => {
            return Err(e);
        },
    };
    let value: &String = q.value.as_ref().unwrap();
    let done = match entry_set_password(&entry, value.as_str()) {
        Ok(_) => Ok(()),
        Err(e) => Err(fault_of(e)),
    };
    write_outcome(done)
}

/// Sends a delete request: one removal of the entry that it addresses.
fn send_delete(q: &VaultRequest) -> (r: Result<(), ErrorKind>)
    requires
        q.admissible(),
        q.op == VaultOp::Delete,
    ensures
        r matches Err(e) ==> is_vault_failure(e@, VaultOp::Init) || is_vault_failure(
            e@,
            VaultOp::Delete,
        ),
{
    let entry = match open_requested(q) {
        Ok(entry) => entry,
        Err(e) => {
            return Err(e);
        },
    };
    let done = match entry_delete(&entry) {
        Ok(_) => Ok(()),
        Err(e) => Err(fault_of(e)),
    };
    delete_outcome(done)
}

/// Opens the vault entry of `key`: the one that [`entry_request`] addresses.
/// A key off the allow-list is refused before the vault is touched; on the
/// allow-list only the vault itself can fail.
pub fn secret_entry(key: &str) -> (opened: Result<keyring::Entry, ErrorKind>)
    ensures
        !is_supported_key(key@) ==> (opened matches Err(e) && e@ == ErrorView::UnsupportedKey(
            key@,
        )),
        is_supported_key(key@) ==> (opened matches Err(e) ==> is_vault_failure(e@, VaultOp::Init)),
{
    match entry_request(key) {
        Ok(q) => open_requested(&q),
        Err(e) => Err(e),
    }
}

/// Reads the value stored under `key`, by the request of [`read_request`];
/// `None` where nothing is stored, as [`read_outcome`] says.
pub fn get_secret(key: String) -> (r: Result<Option<String>, ErrorKind>)
    ensures
        !is_supported_key(key@) ==> (r matches Err(e) && e@ == ErrorView::UnsupportedKey(key@)),
        is_supported_key(key@) ==> (r matches Err(e) ==> is_vault_failure(e@, VaultOp::Init)
            || is_vault_failure(e@, VaultOp::Read)),
{
    match read_request(key.as_str()) {
        Ok(q) => send_read(&q),
        Err(e) => Err(e),
    }
}

/// Stores `value` under `key`, over whatever was stored before, by the
/// request of [`write_request`]; the result is as [`write_outcome`] says.
pub fn set_secret(key: String, value: String) -> (r: Result<(), ErrorKind>)
    ensures
        !is_supported_key(key@) ==> (r matches Err(e) && e@ == ErrorView::UnsupportedKey(key@)),
        is_supported_key(key@) ==> (r matches Err(e) ==> is_vault_failure(e@, VaultOp::Init)
            || is_vault_failure(e@, VaultOp::Write)),
{
    match write_request(key.as_str(), value) {
        Ok(q) => send_write(&q),
        Err(e) => Err(e),
    }
}

/// Removes the value stored under `key`, by the request of
/// [`delete_request`]; succeeds where nothing is stored, as
/// [`delete_outcome`] says.
pub fn delete_secret(key: String) -> (r: Result<(), ErrorKind>)
    ensures
        !is_supported_key(key@) ==> (r matches Err(e) && e@ == ErrorView::UnsupportedKey(key@)),
        is_supported_key(key@) ==> (r matches Err(e) ==> is_vault_failure(e@, VaultOp::Init)
            || is_vault_failure(e@, VaultOp::Delete)),
{
    match delete_request(key.as_str()) {
        Ok(q) => send_delete(&q),
        Err(e) => Err(e),
    }
}

} // verus!
