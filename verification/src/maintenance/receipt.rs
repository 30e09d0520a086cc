//! The installation receipt: the durable record of what a managed
//! installation owns, and the policy that decides whether one is acceptable.
use vstd::prelude::*;
use crate::maintenance::APP_ID;
use crate::maintenance::error::{Error, ErrorKind};
use crate::maintenance::paths::{equal, Paths};
use crate::maintenance::resources::Resource;
use crate::text::{chars_vec, owned, eq_ignore_case, has_suffix, ends_with, is_digit, parse_unsigned, parse_unsigned_exec, split_any, split_any_exec, str_eq, views, lemma_split_any_nonempty};

verus! {

/// What `uuid::Uuid::parse_str` yields for `text`: `None` when it does not
/// parse, otherwise the parsed identifier's canonical text and whether it is
/// the nil identifier.
pub uninterp spec fn uuid_canonical_form(text: Seq<char>) -> Option<(Seq<char>, bool)>;

/// Calls `uuid::Uuid::parse_str` and reports the parsed identifier through its
/// `to_string` text and `is_nil` flag. The contract claims only that the
/// result is a function of the input text (named `uuid_canonical_form`).
#[verifier::external_body]
fn parse_uuid(value: &str) -> (r: Option<(String, bool)>)
    ensures
        match r {
            Some((text, nil)) => uuid_canonical_form(value@) == Some((text@, nil)),
            None => uuid_canonical_form(value@) is None,
        },
{
    match uuid::Uuid::parse_str(value) {
        Ok(id) => Some((id.to_string(), id.is_nil())),
        Err(_) => None,
    }
}

/// A value is a canonical identifier when it parses, prints back to exactly
/// itself, and is not the nil identifier.
pub open spec fn canonical_uuid(value: Seq<char>) -> bool {
    match uuid_canonical_form(value) {
        Some((text, nil)) => text == value && !nil,
        None => false,
    }
}

/// Decides whether the outcome of parsing `value` names a canonical, non-nil
/// identifier: the parsed text must equal `value` and the identifier must not
/// be nil.
pub fn canonical_uuid_outcome(value: &str, parsed: Option<(String, bool)>) -> (r: bool)
    ensures
        r == match parsed {
            Some((text, nil)) => text@ == value@ && !nil,
            None => false,
        },
{
    match parsed {
        Some((text, nil)) => crate::text::str_eq(text.as_str(), value) && !nil,
        None => false,
    }
}

/// Accepts only canonical (lower-case, hyphenated, round-tripping), non-nil identifiers.
pub fn validate_uuid(value: &str) -> (r: Result<(), Error>)
    ensures
        r is Ok <==> canonical_uuid(value@),
        r matches Err(e) ==> e.kind == ErrorKind::ReceiptMalformed && e.detail@ == "Invalid canonical UUID"@,
{
    let parsed = parse_uuid(value);
    if canonical_uuid_outcome(value, parsed) {
        Ok(())
    } else {
        Err(Error::new(ErrorKind::ReceiptMalformed, "Invalid canonical UUID".to_string()))
    }
}


/// Where an installation is in its lifecycle.
#[derive(Debug, Clone, Copy, PartialEq, Eq, Structural)]
pub enum Lifecycle {
    Installing,
    Installed,
    Updating,
    Uninstalling,
    RecoveryRequired,
}

/// The variant name of each lifecycle state.
pub open spec fn lifecycle_name(l: Lifecycle) -> Seq<char> {
    match l {
        Lifecycle::Installing => "Installing"@,
        Lifecycle::Installed => "Installed"@,
        Lifecycle::Updating => "Updating"@,
        Lifecycle::Uninstalling => "Uninstalling"@,
        Lifecycle::RecoveryRequired => "RecoveryRequired"@,
    }
}

impl Lifecycle {
    /// The variant name of this state.
    pub fn name(self) -> (r: &'static str)
        ensures
            r@ == lifecycle_name(self),
    {
        match self {
            Lifecycle::Installing => "Installing",
            Lifecycle::Installed => "Installed",
            Lifecycle::Updating => "Updating",
            Lifecycle::Uninstalling => "Uninstalling",
            Lifecycle::RecoveryRequired => "RecoveryRequired",
        }
    }
}

/// The recorded fingerprint of one owned file.
#[derive(Debug, Clone)]
pub struct FileRecord {
    pub identity: Resource,
    pub version: String,
    pub size: u64,
    pub sha256: String,
}

/// Windows integrations the installation may own.
#[derive(Debug, Clone, Copy, PartialEq, Eq, Hash, Structural)]
pub enum Integration {
    MainStartMenuShortcut,
    WindowsUninstallEntry,
}

/// Whether one integration is present.
#[derive(Debug, Clone)]
pub struct IntegrationRecord {
    pub identity: Integration,
    pub present: bool,
}

/// Updater bookkeeping carried by the receipt.
#[derive(Debug, Clone)]
pub struct Metadata {
    pub updater_protocol: u32,
    pub receipt_generation: u64,
    pub active_session_id: Option<String>,
    pub last_completed_session_id: Option<String>,
    pub committed_manifest_sha256: Option<String>,
}

/// The installation receipt.
#[derive(Debug, Clone)]
pub struct Receipt {
    pub schema_version: u32,
    pub app_id: String,
    pub installation_id: String,
    pub current_version: Option<String>,
    pub lifecycle_state: Lifecycle,
    pub install_root: String,
    pub data_root: String,
    pub installed_at: String,
    pub updated_at: String,
    pub runtime_resources: Vec<FileRecord>,
    pub support_resources: Vec<FileRecord>,
    pub integration_resources: Vec<IntegrationRecord>,
    pub maintenance: Metadata,
}

/// A lower-case SHA-256 hex digest: exactly 64 characters from `0-9a-f`.
pub open spec fn hash_ok(s: Seq<char>) -> bool {
    s.len() == 64 && forall|i: int| 0 <= i < s.len() ==> #[trigger] is_lower_hex(s[i])
}

pub open spec fn is_lower_hex(c: char) -> bool {
    is_digit(c) || ('a' <= c && c <= 'f')
}

/// True for a lower-case SHA-256 hex digest.
pub fn hash_valid(s: &str) -> (r: bool)
    ensures
        r == hash_ok(s@),
{
    let s_chars = chars_vec(s);
    let n = s.unicode_len();
    if n != 64 {
        return false;
    }
    let mut i: usize = 0;
    while i < n
        invariant
            s_chars@ == s@,
            n == s@.len(),
            i <= n,
            forall|j: int| 0 <= j < i ==> #[trigger] is_lower_hex(s@[j]),
        decreases n - i,
    {
        let c = s_chars[i];
        if !(('0' <= c && c <= '9') || ('a' <= c && c <= 'f')) {
            assert(!is_lower_hex(s@[i as int]));
            return false;
        }
        i = i + 1;
    }
    true
}

/// One dotted component of a stable version: non-empty, no leading zero, and
/// a 16-bit unsigned number.
pub open spec fn version_part_ok(p: Seq<char>) -> bool {
    &&& p.len() > 0
    &&& (p.len() == 1 || p[0] != '0')
    &&& parse_unsigned(p, 65535) is Some
}

/// A stable `MAJOR.MINOR.PATCH` version: three components without a leading
/// zero that read as 16-bit numbers (`str::parse::<u16>`, which takes an
/// optional `+`).
pub open spec fn version_ok(s: Seq<char>) -> bool {
    let parts = split_any(s, "."@);
    parts.len() == 3 && forall|i: int| 0 <= i < 3 ==> version_part_ok(#[trigger] parts[i])
}

/// True for a stable three-part version string.
pub fn version_valid(s: &str) -> (r: bool)
    ensures
        r == version_ok(s@),
{
    let parts = split_any_exec(s, ".");
    if parts.len() != 3 {
        return false;
    }
    let mut i: usize = 0;
    while i < 3
        invariant
            views(parts@) == split_any(s@, "."@),
            parts@.len() == 3,
            i <= 3,
            forall|j: int| 0 <= j < i ==> version_part_ok(#[trigger] split_any(s@, "."@)[j]),
        decreases 3 - i,
    {
        let p = parts[i];
        assert(split_any(s@, "."@)[i as int] == p@);
        let n = p.unicode_len();
        if n == 0 {
            return false;
        }
        if n != 1 && p.get_char(0) == '0' {
            return false;
        }
        if parse_unsigned_exec(p, 65535).is_none() {
            return false;
        }
        i = i + 1;
    }
    true
}

/// What `chrono::DateTime::parse_from_rfc3339` decides for `text`: whether it
/// parses as an RFC 3339 timestamp.
pub uninterp spec fn rfc3339_accepts(text: Seq<char>) -> bool;

/// Calls `chrono::DateTime::parse_from_rfc3339`; the contract claims only that
/// acceptance is a function of the text.
#[verifier::external_body]
fn parses_rfc3339(text: &str) -> (r: bool)
    ensures
        r == rfc3339_accepts(text@),
{
    chrono::DateTime::parse_from_rfc3339(text).is_ok()
}

/// A receipt timestamp is an RFC 3339 instant written in UTC (`Z` suffix).
pub open spec fn utc_timestamp_ok(t: Seq<char>) -> bool {
    has_suffix(t, "Z"@) && rfc3339_accepts(t)
}

fn utc_timestamp_valid(t: &str) -> (r: bool)
    ensures
        r == utc_timestamp_ok(t@),
{
    ends_with(t, "Z") && parses_rfc3339(t)
}

/// Largest file the receipt may record (128 MiB).
pub const MAX_RECORDED_SIZE: u64 = 134217728;

/// One file record is well formed for its list: its identity belongs to the
/// list (runtime or support), its version and digest are valid, and its size
/// is within bound.
pub open spec fn record_ok(f: FileRecord, runtime: bool) -> bool {
    &&& (f.identity == Resource::MainExecutable || f.identity == Resource::MaintenanceHelper) == runtime
    &&& version_ok(f.version@)
    &&& hash_ok(f.sha256@)
    &&& f.size <= MAX_RECORDED_SIZE
}

/// Identities of a list of records.
pub open spec fn identities(list: Seq<FileRecord>) -> Seq<Resource> {
    list.map_values(|f: FileRecord| f.identity)
}

/// No identity occurs twice.
pub open spec fn distinct<T>(s: Seq<T>) -> bool {
    forall|i: int, j: int| 0 <= i < j < s.len() ==> s[i] != s[j]
}

/// Integration identities of a list of records.
pub open spec fn integration_identities(list: Seq<IntegrationRecord>) -> Seq<Integration> {
    list.map_values(|r: IntegrationRecord| r.identity)
}

/// The optional identifier, when present, is canonical.
pub open spec fn optional_uuid_ok(id: Option<String>) -> bool {
    match id {
        Some(id) => canonical_uuid(id@),
        None => true,
    }
}

impl Receipt {
    /// A fresh receipt for a manual install of `version` into `paths`:
    /// schema 1, this product, lifecycle `Installing`, generation 1, the given
    /// runtime records, no support records, and the start-menu shortcut and
    /// uninstall entry declared. The identifier and the UTC timestamp are
    /// supplied by the caller (they come from a random source and the clock).
    pub fn new(
        paths: &Paths,
        version: &str,
        runtime_resources: Vec<FileRecord>,
        shortcut: bool,
        installation_id: String,
        now: String,
    ) -> (r: Self)
        ensures
            r.schema_version == 1,
            r.app_id@ == APP_ID@,
            r.installation_id@ == installation_id@,
            r.current_version matches Some(v) && v@ == version@,
            r.lifecycle_state == Lifecycle::Installing,
            r.install_root@ == paths.install_view(),
            r.data_root@ == paths.data_view(),
            r.installed_at@ == now@,
            r.updated_at@ == now@,
            r.runtime_resources@ == runtime_resources@,
            r.support_resources@.len() == 0,
            r.integration_resources@.len() == 2,
            r.integration_resources@[0].identity == Integration::MainStartMenuShortcut,
            r.integration_resources@[0].present == shortcut,
            r.integration_resources@[1].identity == Integration::WindowsUninstallEntry,
            r.integration_resources@[1].present,
            r.maintenance.updater_protocol == 1,
            r.maintenance.receipt_generation == 1,
            r.maintenance.active_session_id is None,
            r.maintenance.last_completed_session_id is None,
            r.maintenance.committed_manifest_sha256 is None,
    {
        let updated = crate::text::owned(now.as_str());
        let mut integration_resources: Vec<IntegrationRecord> = Vec::new();
        integration_resources.push(IntegrationRecord { identity: Integration::MainStartMenuShortcut, present: shortcut });
        integration_resources.push(IntegrationRecord { identity: Integration::WindowsUninstallEntry, present: true });
        Receipt {
            schema_version: 1,
            app_id: crate::text::owned(APP_ID),
            installation_id,
            current_version: Some(crate::text::owned(version)),
            lifecycle_state: Lifecycle::Installing,
            install_root: crate::text::owned(paths.install()),
            data_root: crate::text::owned(paths.data()),
            installed_at: now,
            updated_at: updated,
            runtime_resources,
            support_resources: Vec::new(),
            integration_resources,
            maintenance: Metadata {
                updater_protocol: 1,
                receipt_generation: 1,
                active_session_id: None,
                last_completed_session_id: None,
                committed_manifest_sha256: None,
            },
        }
    }

    /// The in-memory half of saving: stamps `now`, advances the generation by
    /// one and re-validates. Only a receipt that passes may be written.
    pub fn prepare_save(&mut self, paths: &Paths, now: String) -> (r: Result<(), Error>)
        requires
            old(self).maintenance.receipt_generation < u64::MAX,
        ensures
            final(self).updated_at@ == now@,
            final(self).maintenance.receipt_generation == old(self).maintenance.receipt_generation + 1,
            final(self).schema_version == old(self).schema_version,
            final(self).app_id == old(self).app_id,
            final(self).installation_id == old(self).installation_id,
            final(self).current_version == old(self).current_version,
            final(self).lifecycle_state == old(self).lifecycle_state,
            final(self).install_root == old(self).install_root,
            final(self).data_root == old(self).data_root,
            final(self).installed_at == old(self).installed_at,
            final(self).runtime_resources == old(self).runtime_resources,
            final(self).support_resources == old(self).support_resources,
            final(self).integration_resources == old(self).integration_resources,
            final(self).maintenance.updater_protocol == old(self).maintenance.updater_protocol,
            final(self).maintenance.active_session_id == old(self).maintenance.active_session_id,
            final(self).maintenance.last_completed_session_id == old(self).maintenance.last_completed_session_id,
            final(self).maintenance.committed_manifest_sha256 == old(self).maintenance.committed_manifest_sha256,
            match r {
                Ok(()) => final(self).rejection(paths) is None,
                Err(e) => final(self).rejection(paths) == Some(e.kind) && e.detail@ == final(self).rejection_detail(paths),
            },
    {
        self.updated_at = now;
        self.maintenance.receipt_generation = self.maintenance.receipt_generation + 1;
        self.validate(paths)
    }

    /// Every structural rule whose violation makes the receipt malformed.
    pub open spec fn structure_ok(&self) -> bool {
        &&& canonical_uuid(self.installation_id@)
        &&& optional_uuid_ok(self.maintenance.active_session_id)
        &&& optional_uuid_ok(self.maintenance.last_completed_session_id)
        &&& self.maintenance.receipt_generation != 0
        &&& match self.maintenance.committed_manifest_sha256 {
            Some(h) => hash_ok(h@),
            None => true,
        }
        &&& match self.current_version {
            Some(v) => version_ok(v@),
            None => self.lifecycle_state == Lifecycle::Installing,
        }
        &&& utc_timestamp_ok(self.installed_at@)
        &&& utc_timestamp_ok(self.updated_at@)
        &&& forall|i: int| 0 <= i < self.runtime_resources@.len() ==> #[trigger] record_ok(self.runtime_resources@[i], true)
        &&& forall|i: int| 0 <= i < self.support_resources@.len() ==> #[trigger] record_ok(self.support_resources@[i], false)
        &&& distinct(identities(self.runtime_resources@ + self.support_resources@))
        &&& self.runtime_resources@.len() == 2
        &&& self.integration_resources@.len() == 2
        &&& distinct(integration_identities(self.integration_resources@))
    }

    /// The first structural rule the receipt breaks, as the text that reports
    /// it; `None` when its structure is sound.
    pub open spec fn structure_refusal(&self) -> Option<Seq<char>> {
        if !canonical_uuid(self.installation_id@) || !optional_uuid_ok(self.maintenance.active_session_id)
            || !optional_uuid_ok(self.maintenance.last_completed_session_id) {
            Some("Invalid canonical UUID"@)
        } else if self.maintenance.receipt_generation == 0 || (match self.maintenance.committed_manifest_sha256 {
            Some(h) => !hash_ok(h@),
            None => false,
        }) {
            Some("Invalid maintenance metadata"@)
        } else if !(match self.current_version {
            Some(v) => version_ok(v@),
            None => self.lifecycle_state == Lifecycle::Installing,
        }) {
            Some("Invalid current version"@)
        } else if !utc_timestamp_ok(self.installed_at@) || !utc_timestamp_ok(self.updated_at@) {
            Some("Invalid UTC timestamp"@)
        } else if !((forall|i: int| 0 <= i < self.runtime_resources@.len() ==> #[trigger] record_ok(self.runtime_resources@[i], true))
            && (forall|i: int| 0 <= i < self.support_resources@.len() ==> #[trigger] record_ok(self.support_resources@[i], false))
            && distinct(identities(self.runtime_resources@ + self.support_resources@))) {
            Some("Invalid resource record"@)
        } else if self.runtime_resources@.len() != 2 {
            Some("Expected two runtime identities"@)
        } else if !(self.integration_resources@.len() == 2 && distinct(integration_identities(self.integration_resources@))) {
            Some("Invalid integration identities"@)
        } else {
            None
        }
    }

    /// The first rule the receipt breaks against `paths`, as an error kind;
    /// `None` when the receipt is acceptable.
    pub open spec fn rejection(&self, paths: &Paths) -> Option<ErrorKind> {
        if self.schema_version != 1 || self.maintenance.updater_protocol != 1 {
            Some(ErrorKind::UnsupportedReceiptSchema)
        } else if !paths.roots_valid() {
            Some(ErrorKind::UnsafePath)
        } else if self.app_id@ != APP_ID@ {
            Some(ErrorKind::AppIdMismatch)
        } else if !eq_ignore_case(self.install_root@, paths.install_view()) {
            Some(ErrorKind::InstallRootMismatch)
        } else if !eq_ignore_case(self.data_root@, paths.data_view()) {
            Some(ErrorKind::DataRootMismatch)
        } else if !self.structure_ok() {
            Some(ErrorKind::ReceiptMalformed)
        } else {
            None
        }
    }

    /// The text that accompanies the receipt's rejection.
    pub open spec fn rejection_detail(&self, paths: &Paths) -> Seq<char> {
        if self.schema_version != 1 || self.maintenance.updater_protocol != 1 {
            "Unsupported receipt schema/protocol"@
        } else if !paths.roots_valid() {
            paths.roots_refusal()
        } else if self.app_id@ != APP_ID@ {
            "Receipt appId mismatch"@
        } else if !eq_ignore_case(self.install_root@, paths.install_view()) {
            "Receipt install root mismatch"@
        } else if !eq_ignore_case(self.data_root@, paths.data_view()) {
            "Receipt data root mismatch"@
        } else {
            match self.structure_refusal() {
                Some(d) => d,
                None => Seq::empty(),
            }
        }
    }

    /// Checks the receipt against the compiled policy and the canonical roots.
    pub fn validate(&self, paths: &Paths) -> (r: Result<(), Error>)
        ensures
            match r {
                Ok(()) => self.rejection(paths) is None,
                Err(e) => self.rejection(paths) == Some(e.kind) && e.detail@ == self.rejection_detail(paths),
            },
    {
        if self.schema_version != 1 || self.maintenance.updater_protocol != 1 {
            return Err(Error::new(ErrorKind::UnsupportedReceiptSchema, "Unsupported receipt schema/protocol".to_string()));
        }
        paths.validate()?;
        if !str_eq(self.app_id.as_str(), APP_ID) {
            return Err(Error::new(ErrorKind::AppIdMismatch, "Receipt appId mismatch".to_string()));
        }
        if !equal(self.install_root.as_str(), paths.install()) {
            return Err(Error::new(ErrorKind::InstallRootMismatch, "Receipt install root mismatch".to_string()));
        }
        if !equal(self.data_root.as_str(), paths.data()) {
            return Err(Error::new(ErrorKind::DataRootMismatch, "Receipt data root mismatch".to_string()));
        }
        match self.structure_check() {
            Some(detail) => Err(Error::new(ErrorKind::ReceiptMalformed, owned(detail))),
            None => Ok(()),
        }
    }

    fn structure_check(&self) -> (r: Option<&'static str>)
        ensures
            match self.structure_refusal() {
                Some(d) => r matches Some(x) && x@ == d,
                None => r is None,
            },
            r is None <==> self.structure_ok(),
    {
        if validate_uuid(self.installation_id.as_str()).is_err() {
            return Some("Invalid canonical UUID");
        }
        if let Some(id) = &self.maintenance.active_session_id {
            if validate_uuid(id.as_str()).is_err() {
                return Some("Invalid canonical UUID");
            }
        }
        if let Some(id) = &self.maintenance.last_completed_session_id {
            if validate_uuid(id.as_str()).is_err() {
                return Some("Invalid canonical UUID");
            }
        }
        if self.maintenance.receipt_generation == 0 {
            return Some("Invalid maintenance metadata");
        }
        if let Some(h) = &self.maintenance.committed_manifest_sha256 {
            if !hash_valid(h.as_str()) {
                return Some("Invalid maintenance metadata");
            }
        }
        match &self.current_version {
            Some(v) => {
                if !version_valid(v.as_str()) {
                    return Some("Invalid current version");
                }
            },
            None => {
                if self.lifecycle_state != Lifecycle::Installing {
                    return Some("Invalid current version");
                }
            },
        }
        if !utc_timestamp_valid(self.installed_at.as_str()) || !utc_timestamp_valid(self.updated_at.as_str()) {
            return Some("Invalid UTC timestamp");
        }
        if !records_valid(&self.runtime_resources, &self.support_resources) {
            return Some("Invalid resource record");
        }
        if self.runtime_resources.len() != 2 {
            return Some("Expected two runtime identities");
        }
        if self.integration_resources.len() != 2 {
            return Some("Invalid integration identities");
        }
        let a = self.integration_resources[0].identity;
        let b = self.integration_resources[1].identity;
        proof {
            let ids = integration_identities(self.integration_resources@);
            assert(ids[0] == a && ids[1] == b);
        }
        if a == b {
            return Some("Invalid integration identities");
        }
        None
    }
}

fn record_valid(f: &FileRecord, runtime: bool) -> (r: bool)
    ensures
        r == record_ok(*f, runtime),
{
    f.identity.runtime() == runtime && version_valid(f.version.as_str()) && hash_valid(f.sha256.as_str())
        && f.size <= MAX_RECORDED_SIZE
}

fn seen_contains(seen: &Vec<Resource>, r: Resource) -> (b: bool)
    ensures
        b == seen@.contains(r),
{
    let mut i: usize = 0;
    while i < seen.len()
        invariant
            i <= seen@.len(),
            forall|j: int| 0 <= j < i ==> seen@[j] != r,
        decreases seen@.len() - i,
    {
        if seen[i] == r {
            assert(seen@[i as int] == r);
            return true;
        }
        i = i + 1;
    }
    false
}

/// Both record lists are well formed for their kind and no identity repeats.
fn records_valid(runtime: &Vec<FileRecord>, support: &Vec<FileRecord>) -> (r: bool)
    ensures
        r == ((forall|i: int| 0 <= i < runtime@.len() ==> #[trigger] record_ok(runtime@[i], true))
            && (forall|i: int| 0 <= i < support@.len() ==> #[trigger] record_ok(support@[i], false))
            && distinct(identities(runtime@ + support@))),
{
    let ghost all = runtime@ + support@;
    let mut seen: Vec<Resource> = Vec::new();
    let mut i: usize = 0;
    while i < runtime.len()
        invariant
            all == runtime@ + support@,
            i <= runtime@.len(),
            seen@ == identities(all).take(i as int),
            distinct(seen@),
            forall|j: int| 0 <= j < i ==> #[trigger] record_ok(runtime@[j], true),
        decreases runtime@.len() - i,
    {
        let f = &runtime[i];
        assert(all[i as int] == runtime@[i as int]);
        if !record_valid(f, true) {
            return false;
        }
        if seen_contains(&seen, f.identity) {
            proof {
                let k = choose|k: int| 0 <= k < seen@.len() && seen@[k] == f.identity;
                assert(identities(all)[k] == identities(all)[i as int]);
            }
            return false;
        }
        proof {
            assert(identities(all).take(i + 1) =~= identities(all).take(i as int).push(f.identity));
        }
        seen.push(f.identity);
        i = i + 1;
    }
    let n = runtime.len();
    let mut k: usize = 0;
    while k < support.len()
        invariant
            all == runtime@ + support@,
            n == runtime@.len(),
            k <= support@.len(),
            seen@ == identities(all).take(n + k),
            distinct(seen@),
            forall|j: int| 0 <= j < n ==> #[trigger] record_ok(runtime@[j], true),
            forall|j: int| 0 <= j < k ==> #[trigger] record_ok(support@[j], false),
        decreases support@.len() - k,
    {
        let f = &support[k];
        assert(all[n + k] == support@[k as int]);
        if !record_valid(f, false) {
            return false;
        }
        if seen_contains(&seen, f.identity) {
            proof {
                let q = choose|q: int| 0 <= q < seen@.len() && seen@[q] == f.identity;
                assert(identities(all)[q] == identities(all)[n + k]);
            }
            return false;
        }
        proof {
            assert(identities(all).take(n + k + 1) =~= identities(all).take(n + k).push(f.identity));
        }
        seen.push(f.identity);
        k = k + 1;
    }
    assert(identities(all).take(n + k) =~= identities(all));
    true
}

} // verus!
