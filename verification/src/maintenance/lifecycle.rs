//! Install and uninstall decisions of the maintenance helper.
//!
//! Every step of a lifecycle operation that decides something (refuse, keep,
//! delete, record) lives here as a function of what the helper observed on
//! disk; the helper binary performs the file-system work between the steps.
use vstd::prelude::*;
use crate::maintenance::error::{Error, ErrorKind};
use crate::maintenance::{APP_ID, MAIN_EXE};
use crate::maintenance::paths::{equal, join, join_spec, Paths};
use crate::maintenance::receipt::{canonical_uuid, hash_ok, validate_uuid, FileRecord, Integration, Lifecycle, Receipt};
use crate::maintenance::resources::{asset_file, data_file, is_asset_file_name, is_data_file_name, resource_filename, Resource};
use crate::text::{concat2, eq_ignore_case, owned, str_eq_ignore_case, parse_unsigned, parse_unsigned_exec, split_any, split_any_exec, str_eq, views};

verus! {

/// Whether an uninstall also deletes the user's local data.
#[derive(Debug, Clone, Copy, PartialEq, Eq, Structural)]
pub enum DataMode {
    KeepUserData,
    RemoveUserData,
}

/// What an uninstall deliberately left behind, in the order it was noticed.
#[derive(Debug)]
pub struct Outcome {
    pub preserved: Vec<String>,
}

impl Outcome {
    /// An outcome that preserved nothing.
    pub fn empty() -> (o: Self)
        ensures
            o.preserved@.len() == 0,
    {
        Outcome { preserved: Vec::new() }
    }
}

/// Largest value of a version component as the comparison reads it (`u32`).
pub open spec fn component_max() -> int {
    4294967295
}

/// A version read as exactly three dot-separated unsigned 32-bit numbers.
pub open spec fn version_triple(v: Seq<char>) -> Option<(int, int, int)> {
    let parts = split_any(v, "."@);
    if parts.len() == 3
        && parse_unsigned(parts[0], component_max()) is Some
        && parse_unsigned(parts[1], component_max()) is Some
        && parse_unsigned(parts[2], component_max()) is Some
    {
        Some((
            parse_unsigned(parts[0], component_max())->0,
            parse_unsigned(parts[1], component_max())->0,
            parse_unsigned(parts[2], component_max())->0,
        ))
    } else {
        None
    }
}

/// Lexicographic "strictly greater" on triples.
pub open spec fn triple_greater(a: (int, int, int), b: (int, int, int)) -> bool {
    ||| a.0 > b.0
    ||| (a.0 == b.0 && a.1 > b.1)
    ||| (a.0 == b.0 && a.1 == b.1 && a.2 > b.2)
}

/// `a` is strictly newer than `b`; a version that does not read as a triple
/// counts as newer, so an unreadable comparison refuses the operation.
pub open spec fn version_newer(a: Seq<char>, b: Seq<char>) -> bool {
    match (version_triple(a), version_triple(b)) {
        (Some(x), Some(y)) => triple_greater(x, y),
        _ => true,
    }
}

fn read_triple(v: &str) -> (r: Option<(u32, u32, u32)>)
    ensures
        match r {
            Some((a, b, c)) => version_triple(v@) == Some((a as int, b as int, c as int)),
            None => version_triple(v@) is None,
        },
{
    let parts = split_any_exec(v, ".");
    if parts.len() != 3 {
        return None;
    }
    proof {
        assert(parts@[0]@ == split_any(v@, "."@)[0]);
        assert(parts@[1]@ == split_any(v@, "."@)[1]);
        assert(parts@[2]@ == split_any(v@, "."@)[2]);
    }
    let a = parse_unsigned_exec(parts[0], 4294967295u32);
    let b = parse_unsigned_exec(parts[1], 4294967295u32);
    let c = parse_unsigned_exec(parts[2], 4294967295u32);
    match (a, b, c) {
        (Some(a), Some(b), Some(c)) => Some((a, b, c)),
        _ => None,
    }
}

/// The components of a version read as a triple are 32-bit numbers.
proof fn lemma_triple_range(v: Seq<char>)
    ensures
        version_triple(v) matches Some(t) ==> 0 <= t.0 <= component_max() && 0 <= t.1 <= component_max()
            && 0 <= t.2 <= component_max(),
{
    let parts = split_any(v, "."@);
    if version_triple(v) is Some {
        lemma_part_range(parts[0]);
        lemma_part_range(parts[1]);
        lemma_part_range(parts[2]);
    }
}

proof fn lemma_part_range(p: Seq<char>)
    ensures
        parse_unsigned(p, component_max()) matches Some(x) ==> 0 <= x <= component_max(),
{
    let digits = if p.len() > 0 && p[0] == '+' { p.skip(1) } else { p };
    if parse_unsigned(p, component_max()) is Some {
        crate::text::lemma_digits_value_nonneg(digits);
    }
}

/// Of two readable versions, `a` is newer exactly when the number its
/// components spell in base 2^32 (major most significant, then minor, then
/// patch) is larger: a newer major wins whatever follows, and with equal
/// majors a newer minor wins whatever the patches are.
pub proof fn version_newer_is_the_positional_order(a: Seq<char>, b: Seq<char>)
    requires
        version_triple(a) is Some,
        version_triple(b) is Some,
    ensures
        ({
            let x = version_triple(a)->0;
            let y = version_triple(b)->0;
            &&& version_newer(a, b) <==> x.0 * 18446744073709551616 + x.1 * 4294967296 + x.2
                > y.0 * 18446744073709551616 + y.1 * 4294967296 + y.2
            &&& x.0 == y.0 && x.1 > y.1 ==> version_newer(a, b)
        }),
{
    lemma_triple_range(a);
    lemma_triple_range(b);
}

/// True when semantic version `a` is strictly newer than `b`. A version that
/// is not three dot-separated numbers makes the answer "newer", so that an
/// unparseable comparison refuses the operation it guards.
pub fn version_greater(a: &str, b: &str) -> (r: bool)
    ensures
        r == version_newer(a@, b@),
        r == match (version_triple(a@), version_triple(b@)) {
            (Some(x), Some(y)) => x.0 * 18446744073709551616 + x.1 * 4294967296 + x.2
                > y.0 * 18446744073709551616 + y.1 * 4294967296 + y.2,
            _ => true,
        },
{
    proof {
        if version_triple(a@) is Some && version_triple(b@) is Some {
            version_newer_is_the_positional_order(a@, b@);
        }
    }
    match (read_triple(a), read_triple(b)) {
        (Some(x), Some(y)) => {
            x.0 > y.0 || (x.0 == y.0 && x.1 > y.1) || (x.0 == y.0 && x.1 == y.1 && x.2 > y.2)
        },
        _ => true,
    }
}

/// No readable version is newer than itself: reinstalling the same release
/// is never a downgrade.
pub proof fn version_newer_irreflexive(a: Seq<char>)
    requires
        version_triple(a) is Some,
    ensures
        !version_newer(a, a),
{
}

/// Of two readable versions, at most one is newer than the other.
pub proof fn version_newer_asymmetric(a: Seq<char>, b: Seq<char>)
    requires
        version_triple(a) is Some,
        version_triple(b) is Some,
    ensures
        !(version_newer(a, b) && version_newer(b, a)),
{
}

/// "Newer" is transitive on readable versions.
pub proof fn version_newer_transitive(a: Seq<char>, b: Seq<char>, c: Seq<char>)
    requires
        version_triple(a) is Some,
        version_triple(b) is Some,
        version_triple(c) is Some,
        version_newer(a, b),
        version_newer(b, c),
    ensures
        version_newer(a, c),
{
}

/// Two distinct readable versions are ordered one way or the other.
pub proof fn version_newer_total(a: Seq<char>, b: Seq<char>)
    requires
        version_triple(a) is Some,
        version_triple(b) is Some,
        version_triple(a) != version_triple(b),
    ensures
        version_newer(a, b) || version_newer(b, a),
{
}

/// An unreadable version on either side always compares as newer.
pub proof fn version_newer_fails_closed(a: Seq<char>, b: Seq<char>)
    requires
        version_triple(a) is None || version_triple(b) is None,
    ensures
        version_newer(a, b),
{
}

/// Size and SHA-256 digest (lower-case hex) of a file on disk.
#[derive(Debug)]
pub struct Fingerprint {
    pub size: u64,
    pub sha256: String,
}

/// The lower-case hexadecimal SHA-256 digest of `bytes`.
pub uninterp spec fn sha256_hex_of_bytes(bytes: Seq<u8>) -> Seq<char>;

/// Calls `sha2::Sha256::digest` on `bytes` and prints the 32-byte digest with
/// `{:x}`: 64 lower-case hexadecimal digits, a function of the bytes.
#[verifier::external_body]
fn sha256_bytes_hex(bytes: &[u8]) -> (r: String)
    ensures
        r@ == sha256_hex_of_bytes(bytes@),
        hash_ok(r@),
{
    format!("{:x}", <sha2::Sha256 as sha2::Digest>::digest(bytes))
}

/// The fingerprint of a file's contents: its length and SHA-256 digest.
pub fn fingerprint(bytes: &[u8]) -> (r: Fingerprint)
    ensures
        r.size == bytes@.len(),
        r.sha256@ == sha256_hex_of_bytes(bytes@),
        hash_ok(r.sha256@),
{
    Fingerprint { size: bytes.len() as u64, sha256: sha256_bytes_hex(bytes) }
}

/// The record of a payload file: its identity, the product version and the
/// fingerprint of its bytes.
pub fn payload_record(identity: Resource, version: &str, bytes: &[u8]) -> (r: FileRecord)
    ensures
        r.identity == identity,
        r.version@ == version@,
        r.size == bytes@.len(),
        r.sha256@ == sha256_hex_of_bytes(bytes@),
{
    let f = fingerprint(bytes);
    FileRecord { identity, version: owned(version), size: f.size, sha256: f.sha256 }
}

/// The runtime records of a package: the main executable then the helper,
/// each tied to the size and SHA-256 of its bytes.
pub fn package_payload(version: &str, main: &[u8], helper: &[u8]) -> (r: Vec<FileRecord>)
    ensures
        r@.len() == 2,
        r@[0].identity == Resource::MainExecutable && r@[0].version@ == version@
            && r@[0].size == main@.len() && r@[0].sha256@ == sha256_hex_of_bytes(main@),
        r@[1].identity == Resource::MaintenanceHelper && r@[1].version@ == version@
            && r@[1].size == helper@.len() && r@[1].sha256@ == sha256_hex_of_bytes(helper@),
{
    let mut r: Vec<FileRecord> = Vec::new();
    r.push(payload_record(Resource::MainExecutable, version, main));
    r.push(payload_record(Resource::MaintenanceHelper, version, helper));
    r
}

/// A runtime file already present at its installed path.
#[derive(Debug)]
pub struct RuntimeOnDisk {
    pub fingerprint: Fingerprint,
    /// The product version its PE resource declares, when it has a valid one.
    pub product_version: Option<String>,
}

/// What the helper observed before planning an install.
#[derive(Debug)]
pub struct InstallSurvey {
    /// The version resources of the package's main executable and helper.
    pub package_main: VersionResource,
    pub package_helper: VersionResource,
    /// The processes running while the maintenance locks were held.
    pub processes: Vec<ProcessFacts>,
    /// An interrupted uninstall left its journal behind.
    pub uninstall_pending: bool,
    /// The receipt currently on disk, when there is one.
    pub previous: Option<Receipt>,
    /// Fingerprints of the package's runtime files, in install order.
    pub payload: Vec<FileRecord>,
    /// For each payload entry (same index), the file already at its target, if any.
    pub existing: Vec<Option<RuntimeOnDisk>>,
    /// For each support record of the previous receipt (same index), the file
    /// now at its target, if any.
    pub support_on_disk: Vec<Option<Fingerprint>>,
}

/// The observation at index `i`, or nothing when the list is shorter.
pub open spec fn observed<T>(v: Seq<Option<T>>, i: int) -> Option<T> {
    if 0 <= i < v.len() {
        v[i]
    } else {
        None
    }
}

/// A recorded size and digest match what is on disk.
pub open spec fn same_fingerprint(size: u64, sha256: Seq<char>, f: Fingerprint) -> bool {
    size == f.size && sha256 == f.sha256@
}

/// Some record of `list` for `identity` matches the fingerprint.
pub open spec fn recorded_in(list: Seq<FileRecord>, identity: Resource, f: Fingerprint) -> bool {
    exists|j: int| 0 <= j < list.len() && #[trigger] list[j].identity == identity
        && same_fingerprint(list[j].size, list[j].sha256@, f)
}

/// The previous receipt marks an interrupted install that is being retried.
pub open spec fn retrying(previous: Option<Receipt>) -> bool {
    previous matches Some(p) && p.lifecycle_state == Lifecycle::Installing
}

/// A file already at a runtime path may be replaced only when the previous
/// receipt owns exactly those bytes, when they already are this payload, or,
/// on a first install or a retried one, when it is the main executable of the
/// earlier 1.1.0 release or of this release.
pub open spec fn runtime_conflict(
    previous: Option<Receipt>,
    file: FileRecord,
    disk: RuntimeOnDisk,
    product: Seq<char>,
) -> bool {
    let old_match = previous matches Some(p) && recorded_in(p.runtime_resources@, file.identity, disk.fingerprint);
    let new_match = same_fingerprint(file.size, file.sha256@, disk.fingerprint);
    let legacy = (previous is None || retrying(previous))
        && file.identity == Resource::MainExecutable
        && (disk.product_version matches Some(v) && (v@ == "1.1.0"@ || v@ == product));
    !old_match && !new_match && !legacy
}

/// The payload entry at `i` collides with a foreign file at its target.
pub open spec fn conflict_at(survey: InstallSurvey, i: int, product: Seq<char>) -> bool {
    &&& 0 <= i < survey.payload@.len()
    &&& observed(survey.existing@, i) matches Some(d)
    &&& runtime_conflict(survey.previous, survey.payload@[i], d, product)
}

/// Text of the downgrade refusal.
pub open spec fn downgrade_message(installed: Seq<char>, product: Seq<char>) -> Seq<char> {
    "Downgrade refused: the installation has "@ + installed + ", this installer is "@ + product
}

/// Why an install must be refused, in the order the checks run, or nothing.
pub open spec fn install_refusal(survey: InstallSurvey, product: Seq<char>) -> Option<Seq<char>> {
    if early_refusal(survey, product) is Some {
        early_refusal(survey, product)
    } else if exists|i: int| #[trigger] conflict_at(survey, i, product) {
        Some("Existing runtime ownership/hash conflict"@)
    } else {
        None
    }
}

/// The refusals decided before any runtime file is compared.
pub open spec fn early_refusal(survey: InstallSurvey, product: Seq<char>) -> Option<Seq<char>> {
    if survey.uninstall_pending {
        Some("Resume incomplete uninstall first"@)
    } else if survey.previous matches Some(p) && p.current_version matches Some(v) && version_newer(v@, product) {
        Some(downgrade_message(survey.previous->0.current_version->0@, product))
    } else if survey.previous matches Some(p) && !(p.lifecycle_state == Lifecycle::Installed
        || p.lifecycle_state == Lifecycle::Installing) {
        Some("Installation requires recovery/uninstall"@)
    } else {
        None
    }
}

/// How a runtime image's version resource fails the check against this
/// release: unreadable or foreign, or declaring another version (`installed`
/// selects the message, as in `require_product_version`).
pub open spec fn version_check(res: VersionResource, product: Seq<char>, installed: bool) -> Option<(ErrorKind, Seq<char>)> {
    match version_of_resource(res.info_size, res.fixed, res.has_translation, name_view(res.product_name)) {
        Err(m) => Some((ErrorKind::InvalidInstallation, m)),
        Ok(v) => if v == product {
            None
        } else {
            Some((ErrorKind::InvalidInstallation, if installed { "Installed version mismatch"@ } else { "Package and helper ProductVersion differ"@ }))
        },
    }
}

/// Why an install plan is refused once the roots and the source passed, in
/// the order the checks run: the package's two images, then running product
/// processes, then the receipt and the files already installed.
pub open spec fn install_plan_refusal(paths: Paths, survey: InstallSurvey, product: Seq<char>) -> Option<(ErrorKind, Seq<char>)> {
    if version_check(survey.package_main, product, false) is Some {
        version_check(survey.package_main, product, false)
    } else if version_check(survey.package_helper, product, false) is Some {
        version_check(survey.package_helper, product, false)
    } else if legacy_process_refusal(paths.install_view(), paths.qa_flag(), survey.processes@) is Some {
        Some((ErrorKind::MainProcessStillRunning, legacy_process_refusal(paths.install_view(), paths.qa_flag(), survey.processes@)->0))
    } else if install_refusal(survey, product) is Some {
        Some((ErrorKind::InvalidInstallation, install_refusal(survey, product)->0))
    } else {
        None
    }
}

/// `rec` is the receipt of an install of `product` into `paths` from this
/// survey, in lifecycle `state`, saved `saves` times since it was planned,
/// with `documents` copied: a fresh receipt (with `shortcut` declared, `id`
/// and `now` for a first install) which on a reinstall keeps the previous
/// identifier, install time and generation and only the support records
/// still verifiable on disk.
pub open spec fn install_receipt(
    rec: Receipt,
    paths: Paths,
    survey: InstallSurvey,
    product: Seq<char>,
    shortcut: bool,
    id: Seq<char>,
    now: Seq<char>,
    state: Lifecycle,
    saves: int,
    documents: Seq<FileRecord>,
) -> bool {
    &&& rec.schema_version == 1
    &&& rec.app_id@ == APP_ID@
    &&& rec.lifecycle_state == state
    &&& rec.current_version matches Some(v) && v@ == product
    &&& rec.install_root@ == paths.install_view()
    &&& rec.data_root@ == paths.data_view()
    &&& rec.runtime_resources@ == survey.payload@
    &&& rec.updated_at@ == now
    &&& rec.integration_resources@.len() == 2
    &&& rec.integration_resources@[0].identity == Integration::MainStartMenuShortcut
    &&& rec.integration_resources@[0].present == shortcut
    &&& rec.integration_resources@[1].identity == Integration::WindowsUninstallEntry
    &&& rec.integration_resources@[1].present
    &&& rec.maintenance.updater_protocol == 1
    &&& rec.maintenance.active_session_id is None
    &&& rec.maintenance.last_completed_session_id is None
    &&& rec.maintenance.committed_manifest_sha256 is None
    &&& match survey.previous {
        Some(p) => {
            &&& rec.installation_id == p.installation_id
            &&& rec.installed_at == p.installed_at
            &&& rec.maintenance.receipt_generation == p.maintenance.receipt_generation + saves
            &&& rec.support_resources@ == still_owned(p.support_resources@, survey.support_on_disk@) + documents
        },
        None => {
            &&& rec.installation_id@ == id
            &&& rec.installed_at@ == now
            &&& rec.maintenance.receipt_generation == 1 + saves
            &&& rec.support_resources@ == documents
        },
    }
}

/// Every receipt of this install in that lifecycle state, after that many
/// saves and with those documents, validates.
pub open spec fn install_saves_accepted(
    paths: Paths,
    survey: InstallSurvey,
    product: Seq<char>,
    shortcut: bool,
    id: Seq<char>,
    now: Seq<char>,
    state: Lifecycle,
    saves: int,
    documents: Seq<FileRecord>,
) -> bool {
    forall|w: Receipt| #[trigger] install_receipt(w, paths, survey, product, shortcut, id, now, state, saves, documents)
        ==> w.rejection(&paths) is None
}

/// `rec` is the `Installing` receipt planned for this survey, not yet saved.
pub open spec fn planned(rec: Receipt, paths: Paths, survey: InstallSurvey, product: Seq<char>, shortcut: bool, id: Seq<char>, now: Seq<char>) -> bool {
    install_receipt(rec, paths, survey, product, shortcut, id, now, Lifecycle::Installing, 0, Seq::empty())
}

/// The support records whose files are still on disk with the recorded
/// fingerprint, in their original order.
pub open spec fn still_owned(list: Seq<FileRecord>, disk: Seq<Option<Fingerprint>>) -> Seq<FileRecord>
    decreases list.len(),
{
    if list.len() == 0 {
        Seq::empty()
    } else {
        let i = list.len() - 1;
        let rest = still_owned(list.drop_last(), disk);
        if observed(disk, i) matches Some(f) && same_fingerprint(list[i].size, list[i].sha256@, f) {
            rest.push(list[i])
        } else {
            rest
        }
    }
}

fn same_fingerprint_exec(size: u64, sha256: &String, f: &Fingerprint) -> (r: bool)
    ensures
        r == same_fingerprint(size, sha256@, *f),
{
    size == f.size && str_eq(sha256.as_str(), f.sha256.as_str())
}

fn recorded_in_exec(list: &Vec<FileRecord>, identity: Resource, f: &Fingerprint) -> (r: bool)
    ensures
        r == recorded_in(list@, identity, *f),
{
    let mut j: usize = 0;
    while j < list.len()
        invariant
            j <= list@.len(),
            forall|k: int| 0 <= k < j ==> !(#[trigger] list@[k].identity == identity
                && same_fingerprint(list@[k].size, list@[k].sha256@, *f)),
        decreases list.len() - j,
    {
        let rec = &list[j];
        if rec.identity == identity && same_fingerprint_exec(rec.size, &rec.sha256, f) {
            return true;
        }
        j = j + 1;
    }
    false
}

fn runtime_conflict_exec(previous: &Option<Receipt>, file: &FileRecord, disk: &RuntimeOnDisk, product: &str) -> (r: bool)
    ensures
        r == runtime_conflict(*previous, *file, *disk, product@),
{
    let old_match = match previous {
        Some(p) => recorded_in_exec(&p.runtime_resources, file.identity, &disk.fingerprint),
        None => false,
    };
    let new_match = same_fingerprint_exec(file.size, &file.sha256, &disk.fingerprint);
    let retry = match previous {
        Some(p) => p.lifecycle_state == Lifecycle::Installing,
        None => false,
    };
    let legacy = (previous.is_none() || retry) && file.identity == Resource::MainExecutable
        && match &disk.product_version {
            Some(v) => str_eq(v.as_str(), "1.1.0") || str_eq(v.as_str(), product),
            None => false,
        };
    !old_match && !new_match && !legacy
}

fn keep_still_owned(list: Vec<FileRecord>, disk: &Vec<Option<Fingerprint>>) -> (r: Vec<FileRecord>)
    ensures
        r@ == still_owned(list@, disk@),
{
    let ghost original = list@;
    assert(original.len() == list.len());
    let mut rest = list;
    let mut kept: Vec<FileRecord> = Vec::new();
    let mut k: usize = 0;
    while rest.len() > 0
        invariant
            k <= original.len(),
            original.len() <= usize::MAX,
            k + rest@.len() == original.len(),
            rest@ == original.skip(k as int),
            kept@ == still_owned(original.take(k as int), disk@),
        decreases rest.len(),
    {
        let rec = rest.remove(0);
        assert(rec == original[k as int]);
        assert(original.take(k + 1).drop_last() =~= original.take(k as int));
        assert(original.take(k + 1)[k as int] == rec);
        let keep = if k < disk.len() {
            match &disk[k] {
                Some(f) => same_fingerprint_exec(rec.size, &rec.sha256, f),
                None => false,
            }
        } else {
            false
        };
        if keep {
            kept.push(rec);
        }
        assert(rest@ =~= original.skip(k + 1));
        k = k + 1;
    }
    assert(original.take(k as int) =~= original);
    kept
}

/// Plans a manual install of `product_version` from a surveyed package:
/// refuses unsafe roots, the installed directory as source, a package whose
/// images are not this release, running product processes, a pending
/// uninstall, a downgrade, a receipt in a recovery state and any foreign file
/// at a runtime path; otherwise returns the `Installing` receipt to save
/// before copying.
pub fn install_plan(
    paths: &Paths,
    source: &str,
    survey: InstallSurvey,
    product_version: &str,
    shortcut: bool,
    installation_id: String,
    now: String,
) -> (r: Result<Receipt, Error>)
    ensures
        !paths.roots_valid() ==> (r matches Err(e) && e.kind == ErrorKind::UnsafePath && e.detail@ == paths.roots_refusal()),
        paths.roots_valid() && eq_ignore_case(source@, paths.install_view()) ==> (r matches Err(e)
            && e.kind == ErrorKind::InvalidInstallation
            && e.detail@ == "Run install from the extracted trusted package, not the installed directory"@),
        paths.roots_valid() && !eq_ignore_case(source@, paths.install_view()) ==> match install_plan_refusal(*paths, survey, product_version@) {
            Some((k, d)) => r matches Err(e) && e.kind == k && e.detail@ == d,
            None => r is Ok,
        },
        r matches Ok(rec) ==> planned(rec, *paths, survey, product_version@, shortcut, installation_id@, now@),
{
    install_source_check(paths, source)?;
    check_version(&survey.package_main, product_version, false)?;
    check_version(&survey.package_helper, product_version, false)?;
    require_no_legacy_processes(paths, &survey.processes)?;
    if survey.uninstall_pending {
        return Err(Error::new(ErrorKind::InvalidInstallation, "Resume incomplete uninstall first".to_string()));
    }
    if let Some(p) = &survey.previous {
        if let Some(v) = &p.current_version {
            if version_greater(v.as_str(), product_version) {
                let a = concat2("Downgrade refused: the installation has ", v.as_str());
                let b = concat2(a.as_str(), ", this installer is ");
                let m = concat2(b.as_str(), product_version);
                return Err(Error::new(ErrorKind::InvalidInstallation, m));
            }
        }
        if !(p.lifecycle_state == Lifecycle::Installed || p.lifecycle_state == Lifecycle::Installing) {
            return Err(Error::new(ErrorKind::InvalidInstallation, "Installation requires recovery/uninstall".to_string()));
        }
    }
    let mut i: usize = 0;
    while i < survey.payload.len()
        invariant
            i <= survey.payload@.len(),
            early_refusal(survey, product_version@) is None,
            paths.roots_valid(),
            !eq_ignore_case(source@, paths.install_view()),
            version_check(survey.package_main, product_version@, false) is None,
            version_check(survey.package_helper, product_version@, false) is None,
            legacy_process_refusal(paths.install_view(), paths.qa_flag(), survey.processes@) is None,
            forall|j: int| 0 <= j < i ==> !#[trigger] conflict_at(survey, j, product_version@),
        decreases survey.payload.len() - i,
    {
        if i < survey.existing.len() {
            if let Some(d) = &survey.existing[i] {
                if runtime_conflict_exec(&survey.previous, &survey.payload[i], d, product_version) {
                    assert(conflict_at(survey, i as int, product_version@));
                    return Err(Error::new(ErrorKind::InvalidInstallation, "Existing runtime ownership/hash conflict".to_string()));
                }
            }
        }
        assert(!conflict_at(survey, i as int, product_version@));
        i = i + 1;
    }
    assert(forall|j: int| !#[trigger] conflict_at(survey, j, product_version@));
    let InstallSurvey { previous, payload, support_on_disk, .. } = survey;
    let mut receipt = Receipt::new(paths, product_version, payload, shortcut, installation_id, now);
    if let Some(p) = previous {
        let Receipt { installation_id: id, installed_at, maintenance, support_resources, .. } = p;
        receipt.installation_id = id;
        receipt.installed_at = installed_at;
        receipt.maintenance.receipt_generation = maintenance.receipt_generation;
        receipt.support_resources = keep_still_owned(support_resources, &support_on_disk);
    }
    assert(receipt.support_resources@ + Seq::<FileRecord>::empty() =~= receipt.support_resources@);
    Ok(receipt)
}


/// Refuses to install from the installed directory itself, after validating
/// every root (its syntax and its existing ancestors).
pub fn install_source_check(paths: &Paths, source: &str) -> (r: Result<(), Error>)
    ensures
        !paths.roots_valid() ==> (r matches Err(e) && e.kind == ErrorKind::UnsafePath && e.detail@ == paths.roots_refusal()),
        paths.roots_valid() ==> (r is Err <==> eq_ignore_case(source@, paths.install_view())),
        paths.roots_valid() ==> (r matches Err(e) ==> e.kind == ErrorKind::InvalidInstallation
            && e.detail@ == "Run install from the extracted trusted package, not the installed directory"@),
{
    paths.validate()?;
    if equal(source, paths.install()) {
        return Err(Error::new(
            ErrorKind::InvalidInstallation,
            "Run install from the extracted trusted package, not the installed directory".to_string(),
        ));
    }
    Ok(())
}

/// Requires a runtime file's declared product version to be this release's.
/// `installed` selects the message: after copying, a mismatch means the
/// installed copy is wrong; before, that the package is inconsistent.
pub fn require_product_version(found: &str, product_version: &str, installed: bool) -> (r: Result<(), Error>)
    ensures
        r is Ok <==> found@ == product_version@,
        r matches Err(e) ==> e.kind == ErrorKind::InvalidInstallation
            && e.detail@ == (if installed { "Installed version mismatch"@ } else { "Package and helper ProductVersion differ"@ }),
{
    if str_eq(found, product_version) {
        Ok(())
    } else if installed {
        Err(Error::new(ErrorKind::InvalidInstallation, "Installed version mismatch".to_string()))
    } else {
        Err(Error::new(ErrorKind::InvalidInstallation, "Package and helper ProductVersion differ".to_string()))
    }
}

/// Requires a runtime image to be this release's: its version resource must
/// be readable and the product's, and declare `product_version`.
pub fn check_version(resource: &VersionResource, product: &str, installed: bool) -> (r: Result<(), Error>)
    ensures
        match version_check(*resource, product@, installed) {
            None => r is Ok,
            Some((k, d)) => r matches Err(e) && e.kind == k && e.detail@ == d,
        },
{
    let found = product_version(resource)?;
    require_product_version(found.as_str(), product, installed)
}

/// The fixed part of a version resource (`VS_FIXEDFILEINFO`), as far as the
/// helper reads it.
#[derive(Debug, Clone, Copy, PartialEq, Eq, Structural)]
pub struct FixedVersionInfo {
    pub signature: u32,
    pub product_version_ms: u32,
    pub product_version_ls: u32,
}

/// What the version resource of an executable held, as the helper read it:
/// the resource size; the fixed part (`None` when the query failed or was
/// short); whether a translation entry of at least four bytes exists; and the
/// `ProductName` string (`None` when the query failed or was empty).
#[derive(Debug)]
pub struct VersionResource {
    pub info_size: u32,
    pub fixed: Option<FixedVersionInfo>,
    pub has_translation: bool,
    pub product_name: Option<String>,
}

/// The signature every fixed version block starts with.
pub const FIXED_INFO_SIGNATURE: u32 = 0xfeef04bd;

/// The product name every runtime image of this product declares.
pub const PRODUCT_NAME: &'static str = "desktop-todo-widget";

/// The product version of an image (`major.minor.patch`), or the first check
/// of its version resource that fails, in the order they are made.
pub open spec fn version_of_resource(size: u32, fixed: Option<FixedVersionInfo>, has_translation: bool, name: Option<Seq<char>>) -> Result<Seq<char>, Seq<char>> {
    if size == 0 || size > 1024 * 1024 {
        Err("Missing or oversized PE version information"@)
    } else if fixed is None {
        Err("Invalid PE version resource"@)
    } else if fixed->0.signature != FIXED_INFO_SIGNATURE || fixed->0.product_version_ls % 65536 != 0 {
        Err("Unsupported PE version"@)
    } else if !has_translation {
        Err("Missing PE product identity"@)
    } else if name is None {
        Err("Missing PE ProductName"@)
    } else if name->0 != PRODUCT_NAME@ {
        Err("Unexpected PE ProductName"@)
    } else {
        let info = fixed->0;
        Ok(crate::text::decimal((info.product_version_ms / 65536) as nat) + "."@
            + crate::text::decimal((info.product_version_ms % 65536) as nat) + "."@
            + crate::text::decimal((info.product_version_ls / 65536) as nat))
    }
}

/// The name of a read resource as a plain value.
pub open spec fn name_view(name: Option<String>) -> Option<Seq<char>> {
    match name {
        Some(n) => Some(n@),
        None => None,
    }
}

/// Reads the product version out of a version resource, refusing images that
/// are not this product's (every refusal is an invalid installation).
pub fn product_version(resource: &VersionResource) -> (r: Result<String, Error>)
    ensures
        match version_of_resource(resource.info_size, resource.fixed, resource.has_translation, name_view(resource.product_name)) {
            Ok(v) => r matches Ok(s) && s@ == v,
            Err(m) => r matches Err(e) && e.kind == ErrorKind::InvalidInstallation && e.detail@ == m,
        },
{
    if resource.info_size == 0 || resource.info_size > 1024 * 1024 {
        return Err(Error::new(ErrorKind::InvalidInstallation, "Missing or oversized PE version information".to_string()));
    }
    let info = match resource.fixed {
        Some(info) => info,
        None => return Err(Error::new(ErrorKind::InvalidInstallation, "Invalid PE version resource".to_string())),
    };
    if info.signature != FIXED_INFO_SIGNATURE || info.product_version_ls % 65536 != 0 {
        return Err(Error::new(ErrorKind::InvalidInstallation, "Unsupported PE version".to_string()));
    }
    if !resource.has_translation {
        return Err(Error::new(ErrorKind::InvalidInstallation, "Missing PE product identity".to_string()));
    }
    let name = match &resource.product_name {
        Some(n) => n,
        None => return Err(Error::new(ErrorKind::InvalidInstallation, "Missing PE ProductName".to_string())),
    };
    if !str_eq(name.as_str(), PRODUCT_NAME) {
        return Err(Error::new(ErrorKind::InvalidInstallation, "Unexpected PE ProductName".to_string()));
    }
    let major = crate::text::decimal_string((info.product_version_ms / 65536) as u128);
    let minor = crate::text::decimal_string((info.product_version_ms % 65536) as u128);
    let patch = crate::text::decimal_string((info.product_version_ls / 65536) as u128);
    let a = concat2(major.as_str(), ".");
    let b = concat2(a.as_str(), minor.as_str());
    let c = concat2(b.as_str(), ".");
    let r = concat2(c.as_str(), patch.as_str());
    Ok(r)
}

/// One running process as the helper saw it: its executable file name and,
/// for a product-named process, the full path of its image (`None` when the
/// process could not be opened for inspection).
#[derive(Debug)]
pub struct ProcessFacts {
    pub name: String,
    pub image: Option<String>,
}

/// The executable names of this product and of its earlier builds.
pub open spec fn product_process_name(name: Seq<char>) -> bool {
    eq_ignore_case(name, MAIN_EXE@) || eq_ignore_case(name, "alan-desktop.exe"@)
}

/// Why maintenance may not run while these processes do, from the first
/// product-named process on: one that cannot be inspected, or any product
/// instance (in a QA sandbox only the sandbox's own runtime counts).
pub open spec fn legacy_process_refusal(install: Seq<char>, qa: bool, procs: Seq<ProcessFacts>) -> Option<Seq<char>>
    decreases procs.len(),
{
    if procs.len() == 0 {
        None
    } else if !product_process_name(procs[0].name@) {
        legacy_process_refusal(install, qa, procs.drop_first())
    } else {
        match procs[0].image {
            None => Some("A product-named process cannot be inspected; close it before maintenance"@),
            Some(image) => if qa && !eq_ignore_case(image@, join_spec(install, MAIN_EXE@)) {
                legacy_process_refusal(install, qa, procs.drop_first())
            } else {
                Some("Quit all desktop-todo-widget instances from their tray menus, then retry"@)
            },
        }
    }
}

/// Refuses maintenance while any instance of the product (or of an earlier
/// build) is running; processes are never terminated.
pub fn require_no_legacy_processes(paths: &Paths, processes: &Vec<ProcessFacts>) -> (r: Result<(), Error>)
    ensures
        match legacy_process_refusal(paths.install_view(), paths.qa_flag(), processes@) {
            None => r is Ok,
            Some(m) => r matches Err(e) && e.kind == ErrorKind::MainProcessStillRunning && e.detail@ == m,
        },
{
    let ghost all = processes@;
    let main_path = join(paths.install(), MAIN_EXE);
    let mut i: usize = 0;
    assert(all.skip(0) =~= all);
    while i < processes.len()
        invariant
            i <= all.len(),
            all == processes@,
            main_path@ == join_spec(paths.install_view(), MAIN_EXE@),
            legacy_process_refusal(paths.install_view(), paths.qa_flag(), all)
                == legacy_process_refusal(paths.install_view(), paths.qa_flag(), all.skip(i as int)),
        decreases processes.len() - i,
    {
        let p = &processes[i];
        assert(all.skip(i as int)[0] == *p);
        assert(all.skip(i as int).drop_first() =~= all.skip(i + 1));
        if str_eq_ignore_case(p.name.as_str(), MAIN_EXE) || str_eq_ignore_case(p.name.as_str(), "alan-desktop.exe") {
            match &p.image {
                None => {
                    return Err(Error::new(
                        ErrorKind::MainProcessStillRunning,
                        "A product-named process cannot be inspected; close it before maintenance".to_string(),
                    ));
                },
                Some(image) => {
                    if !(paths.is_qa() && !equal(image.as_str(), main_path.as_str())) {
                        return Err(Error::new(
                            ErrorKind::MainProcessStillRunning,
                            "Quit all desktop-todo-widget instances from their tray menus, then retry".to_string(),
                        ));
                    }
                },
            }
        }
        i = i + 1;
    }
    Ok(())
}

/// The documents a package may ship, in the order the installer copies them.
pub fn support_documents() -> (r: Vec<Resource>)
    ensures
        r@ == seq![Resource::Readme, Resource::ReadmeZh, Resource::License, Resource::LicenseZh, Resource::ThirdPartyNotices],
{
    let mut v = Vec::new();
    v.push(Resource::Readme);
    v.push(Resource::ReadmeZh);
    v.push(Resource::License);
    v.push(Resource::LicenseZh);
    v.push(Resource::ThirdPartyNotices);
    v
}

/// Completes an install once the runtime was copied and verified: the copied
/// documents join the support records and the receipt becomes `Installed`.
pub fn finish_install(receipt: &mut Receipt, documents: Vec<FileRecord>)
    ensures
        final(receipt).lifecycle_state == Lifecycle::Installed,
        final(receipt).support_resources@ == old(receipt).support_resources@ + documents@,
        final(receipt).runtime_resources == old(receipt).runtime_resources,
        final(receipt).installation_id == old(receipt).installation_id,
        final(receipt).current_version == old(receipt).current_version,
        final(receipt).install_root == old(receipt).install_root,
        final(receipt).data_root == old(receipt).data_root,
        final(receipt).installed_at == old(receipt).installed_at,
        final(receipt).updated_at == old(receipt).updated_at,
        final(receipt).integration_resources == old(receipt).integration_resources,
        final(receipt).maintenance == old(receipt).maintenance,
        final(receipt).schema_version == old(receipt).schema_version,
        final(receipt).app_id == old(receipt).app_id,
{
    let mut documents = documents;
    receipt.support_resources.append(&mut documents);
    receipt.lifecycle_state = Lifecycle::Installed;
}

/// A document the installer copied: its record (from the package's bytes)
/// and the fingerprint of the copy it wrote.
#[derive(Debug)]
pub struct CopiedDocument {
    pub record: FileRecord,
    pub copy: Fingerprint,
}

/// What carrying out an install plan produced: the fingerprint of each
/// runtime copy (in the order of the plan's runtime records), the documents
/// copied (those the package ships and the installation lacked), the version
/// resources of the installed main executable and helper, and the outcome
/// of reconciling the Windows integration with the receipt.
#[derive(Debug)]
pub struct InstallCopies {
    pub runtime: Vec<Fingerprint>,
    pub documents: Vec<CopiedDocument>,
    pub installed_main: VersionResource,
    pub installed_helper: VersionResource,
    pub integration: Result<(), Error>,
}

/// The copy of runtime record `i` does not have the recorded bytes.
pub open spec fn copy_differs(records: Seq<FileRecord>, copies: Seq<Fingerprint>, i: int) -> bool {
    0 <= i < records.len() && i < copies.len() && !same_fingerprint(records[i].size, records[i].sha256@, copies[i])
}

/// The copy of document `i` does not have the recorded bytes.
pub open spec fn document_differs(documents: Seq<CopiedDocument>, i: int) -> bool {
    0 <= i < documents.len() && !same_fingerprint(documents[i].record.size, documents[i].record.sha256@, documents[i].copy)
}

/// The records of the copied documents, in copy order.
pub open spec fn document_records(documents: Seq<CopiedDocument>) -> Seq<FileRecord> {
    documents.map_values(|d: CopiedDocument| d.record)
}

/// Why a carried-out install plan cannot be completed, in the order the
/// checks run: a copy that does not hold the recorded bytes, an installed
/// image that is not this release, then the integration.
pub open spec fn completion_refusal(records: Seq<FileRecord>, copies: InstallCopies, product: Seq<char>) -> Option<(ErrorKind, Seq<char>)> {
    if (exists|i: int| #[trigger] copy_differs(records, copies.runtime@, i))
        || (exists|i: int| #[trigger] document_differs(copies.documents@, i)) {
        Some((ErrorKind::InvalidInstallation, "Payload changed while copying"@))
    } else if version_check(copies.installed_main, product, true) is Some {
        version_check(copies.installed_main, product, true)
    } else if version_check(copies.installed_helper, product, true) is Some {
        version_check(copies.installed_helper, product, true)
    } else {
        match copies.integration {
            Err(e) => Some((e.kind, e.detail@)),
            Ok(_) => None,
        }
    }
}

/// `rec` is `plan` completed: the copied documents joined its support
/// records, it became `Installed`, and saving it stamped `now` and advanced
/// the generation; nothing else changed.
pub open spec fn completed_from(rec: Receipt, plan: Receipt, documents: Seq<FileRecord>, now: Seq<char>) -> bool {
    &&& rec.lifecycle_state == Lifecycle::Installed
    &&& rec.support_resources@ == plan.support_resources@ + documents
    &&& rec.updated_at@ == now
    &&& rec.maintenance.receipt_generation == plan.maintenance.receipt_generation + 1
    &&& rec.maintenance.updater_protocol == plan.maintenance.updater_protocol
    &&& rec.maintenance.active_session_id == plan.maintenance.active_session_id
    &&& rec.maintenance.last_completed_session_id == plan.maintenance.last_completed_session_id
    &&& rec.maintenance.committed_manifest_sha256 == plan.maintenance.committed_manifest_sha256
    &&& rec.schema_version == plan.schema_version
    &&& rec.app_id == plan.app_id
    &&& rec.installation_id == plan.installation_id
    &&& rec.current_version == plan.current_version
    &&& rec.install_root == plan.install_root
    &&& rec.data_root == plan.data_root
    &&& rec.installed_at == plan.installed_at
    &&& rec.runtime_resources == plan.runtime_resources
    &&& rec.integration_resources == plan.integration_resources
}

/// Completes a saved install plan once the files were copied: every copy
/// must hold the recorded bytes and both installed images must be this
/// release, the integration must have been reconciled; then the copied
/// documents join the support records, the receipt becomes `Installed` and
/// is prepared for saving (stamped `now`, next generation, validated).
pub fn complete_install(paths: &Paths, plan: Receipt, product_version: &str, copies: InstallCopies, now: String) -> (r: Result<Receipt, Error>)
    requires
        copies.runtime@.len() == plan.runtime_resources@.len(),
        plan.maintenance.receipt_generation < u64::MAX,
    ensures
        match completion_refusal(plan.runtime_resources@, copies, product_version@) {
            Some((k, d)) => r matches Err(e) && e.kind == k && e.detail@ == d,
            None => match r {
                Ok(rec) => completed_from(rec, plan, document_records(copies.documents@), now@) && rec.rejection(paths) is None,
                Err(e) => exists|rec: Receipt| #[trigger] completed_from(rec, plan, document_records(copies.documents@), now@)
                    && rec.rejection(paths) == Some(e.kind) && e.detail@ == rec.rejection_detail(paths),
            },
        },
{
    let ghost before = plan;
    let ghost all = copies;
    let mut i: usize = 0;
    while i < copies.runtime.len()
        invariant
            i <= copies.runtime@.len(),
            copies.runtime@.len() == plan.runtime_resources@.len(),
            forall|j: int| 0 <= j < i ==> !#[trigger] copy_differs(plan.runtime_resources@, copies.runtime@, j),
        decreases copies.runtime.len() - i,
    {
        let record = &plan.runtime_resources[i];
        if !same_fingerprint_exec(record.size, &record.sha256, &copies.runtime[i]) {
            assert(copy_differs(plan.runtime_resources@, copies.runtime@, i as int));
            return Err(Error::new(ErrorKind::InvalidInstallation, "Payload changed while copying".to_string()));
        }
        i = i + 1;
    }
    assert(forall|j: int| !#[trigger] copy_differs(plan.runtime_resources@, copies.runtime@, j));
    let mut k: usize = 0;
    while k < copies.documents.len()
        invariant
            k <= copies.documents@.len(),
            forall|j: int| 0 <= j < k ==> !#[trigger] document_differs(copies.documents@, j),
        decreases copies.documents.len() - k,
    {
        let d = &copies.documents[k];
        if !same_fingerprint_exec(d.record.size, &d.record.sha256, &d.copy) {
            assert(document_differs(copies.documents@, k as int));
            return Err(Error::new(ErrorKind::InvalidInstallation, "Payload changed while copying".to_string()));
        }
        k = k + 1;
    }
    assert(forall|j: int| !#[trigger] document_differs(copies.documents@, j));
    check_version(&copies.installed_main, product_version, true)?;
    check_version(&copies.installed_helper, product_version, true)?;
    let InstallCopies { documents, integration, .. } = copies;
    if let Err(e) = integration {
        return Err(e);
    }
    let mut documents = documents;
    let mut records: Vec<FileRecord> = Vec::new();
    while documents.len() > 0
        invariant
            records@ + document_records(documents@) == document_records(all.documents@),
        decreases documents.len(),
    {
        let ghost docs_old = documents@;
        let ghost recs_old = records@;
        let d = documents.remove(0);
        let ghost dr = d.record;
        assert(documents@ =~= docs_old.drop_first());
        assert(document_records(docs_old) =~= seq![dr] + document_records(documents@));
        records.push(d.record);
        assert(records@ + document_records(documents@) =~= recs_old + document_records(docs_old));
    }
    let mut receipt = plan;
    finish_install(&mut receipt, records);
    let saved = receipt.prepare_save(paths, now);
    match saved {
        Ok(()) => Ok(receipt),
        Err(e) => {
            assert(completed_from(receipt, before, document_records(all.documents@), now@));
            Err(e)
        },
    }
}

/// Installs `product_version` from a surveyed package whose files the helper
/// then copied: plans the install (see `install_plan`), saves the
/// `Installing` receipt, completes it with what copying produced (see
/// `complete_install`) and returns the `Installed` receipt to save, one that
/// every later maintenance step accepts.
pub fn install(
    paths: &Paths,
    source: &str,
    survey: InstallSurvey,
    product_version: &str,
    shortcut: bool,
    installation_id: String,
    now: String,
    copies: InstallCopies,
) -> (r: Result<Receipt, Error>)
    requires
        copies.runtime@.len() == survey.payload@.len(),
        survey.previous matches Some(p) ==> p.maintenance.receipt_generation < u64::MAX - 1,
    ensures
        !paths.roots_valid() ==> (r matches Err(e) && e.kind == ErrorKind::UnsafePath && e.detail@ == paths.roots_refusal()),
        paths.roots_valid() && eq_ignore_case(source@, paths.install_view()) ==> (r matches Err(e)
            && e.kind == ErrorKind::InvalidInstallation
            && e.detail@ == "Run install from the extracted trusted package, not the installed directory"@),
        paths.roots_valid() && !eq_ignore_case(source@, paths.install_view()) ==> match install_plan_refusal(*paths, survey, product_version@) {
            Some((k, d)) => r matches Err(e) && e.kind == k && e.detail@ == d,
            None => {
                &&& completion_refusal(survey.payload@, copies, product_version@) is Some ==> r is Err
                &&& install_saves_accepted(*paths, survey, product_version@, shortcut, installation_id@, now@,
                    Lifecycle::Installing, 1, Seq::empty()) ==> match completion_refusal(survey.payload@, copies, product_version@) {
                    Some((k, d)) => r matches Err(e) && e.kind == k && e.detail@ == d,
                    None => install_saves_accepted(*paths, survey, product_version@, shortcut, installation_id@, now@,
                        Lifecycle::Installed, 2, document_records(copies.documents@)) ==> r is Ok,
                }
                &&& r matches Err(e) ==> {
                    ||| exists|rec: Receipt| #[trigger] install_receipt(rec, *paths, survey, product_version@, shortcut,
                            installation_id@, now@, Lifecycle::Installing, 1, Seq::empty())
                        && rec.rejection(paths) == Some(e.kind) && e.detail@ == rec.rejection_detail(paths)
                    ||| completion_refusal(survey.payload@, copies, product_version@) == Some((e.kind, e.detail@))
                    ||| completion_refusal(survey.payload@, copies, product_version@) is None
                        && exists|rec: Receipt| #[trigger] install_receipt(rec, *paths, survey, product_version@, shortcut,
                            installation_id@, now@, Lifecycle::Installed, 2, document_records(copies.documents@))
                        && rec.rejection(paths) == Some(e.kind) && e.detail@ == rec.rejection_detail(paths)
                }
            },
        },
        r matches Ok(rec) ==> {
            &&& install_receipt(rec, *paths, survey, product_version@, shortcut, installation_id@, now@,
                Lifecycle::Installed, 2, document_records(copies.documents@))
            &&& rec.rejection(paths) is None
        },
{
    let ghost s = survey;
    let ghost cp = copies;
    let ghost docs = document_records(copies.documents@);
    let mut plan = install_plan(paths, source, survey, product_version, shortcut, installation_id, owned(now.as_str()))?;
    match plan.prepare_save(paths, owned(now.as_str())) {
        Ok(()) => {},
        Err(e) => {
            assert(install_receipt(plan, *paths, s, product_version@, shortcut, installation_id@, now@, Lifecycle::Installing, 1, Seq::empty()));
            return Err(e);
        },
    }
    let ghost saved_rec = plan;
    let done = complete_install(paths, plan, product_version, copies, now);
    match done {
        Ok(rec) => {
            assert(install_receipt(rec, *paths, s, product_version@, shortcut, installation_id@, now@, Lifecycle::Installed, 2, docs)) by {
                match s.previous {
                    Some(p) => assert(rec.support_resources@ =~= still_owned(p.support_resources@, s.support_on_disk@) + docs),
                    None => assert(rec.support_resources@ =~= docs),
                }
            }
            Ok(rec)
        },
        Err(e) => {
            proof {
                if completion_refusal(s.payload@, cp, product_version@) is None {
                    let w = choose|w: Receipt| #[trigger] completed_from(w, saved_rec, docs, now@)
                        && w.rejection(paths) == Some(e.kind) && e.detail@ == w.rejection_detail(paths);
                    assert(install_receipt(w, *paths, s, product_version@, shortcut, installation_id@, now@, Lifecycle::Installed, 2, docs)) by {
                        match s.previous {
                            Some(p) => assert(w.support_resources@ =~= still_owned(p.support_resources@, s.support_on_disk@) + docs),
                            None => assert(w.support_resources@ =~= docs),
                        }
                    }
                }
            }
            Err(e)
        },
    }
}

/// Receipt load failures after which an uninstall may still proceed by
/// conservative discovery (the receipt is distrusted, never obeyed).
pub open spec fn conservative_kind(kind: ErrorKind) -> bool {
    ||| kind == ErrorKind::ReceiptMalformed
    ||| kind == ErrorKind::InvalidInstallation
    ||| kind == ErrorKind::AppIdMismatch
    ||| kind == ErrorKind::InstallRootMismatch
    ||| kind == ErrorKind::DataRootMismatch
}

/// True when a receipt that failed to load with `kind` is set aside rather
/// than aborting the uninstall.
pub fn conservative_discovery(kind: ErrorKind) -> (r: bool)
    ensures
        r == conservative_kind(kind),
{
    match kind {
        ErrorKind::ReceiptMalformed
        | ErrorKind::InvalidInstallation
        | ErrorKind::AppIdMismatch
        | ErrorKind::InstallRootMismatch
        | ErrorKind::DataRootMismatch => true,
        _ => false,
    }
}

/// Only a receipt that loaded and validated grants deletion of user data.
pub fn can_remove_data(loaded: &Result<Option<Receipt>, Error>) -> (r: bool)
    ensures
        r == (loaded matches Ok(Some(_))),
{
    match loaded {
        Ok(Some(_)) => true,
        _ => false,
    }
}

/// Presence checks made before an uninstall starts.
#[derive(Debug)]
pub struct UninstallSurvey {
    pub main_present: bool,
    pub helper_present: bool,
    pub receipt_present: bool,
    pub journal_present: bool,
    /// The uninstall registration points at this installation.
    pub registration_owned: bool,
}

/// How an uninstall proceeds once admitted.
#[derive(Debug)]
pub enum UninstallStart {
    /// Nothing of the product is present: succeed without touching anything.
    NothingInstalled,
    /// Go on, with the trusted receipt (already marked `Uninstalling`) if any.
    Proceed(Option<Receipt>),
}

/// A load failure that aborts the uninstall as it is.
pub open spec fn fatal_load(loaded: Result<Option<Receipt>, Error>) -> bool {
    loaded matches Err(e) && !conservative_kind(e.kind)
}

/// The receipt an uninstall may trust.
pub open spec fn trusted_receipt(loaded: Result<Option<Receipt>, Error>) -> Option<Receipt> {
    match loaded {
        Ok(r) => r,
        Err(_) => None,
    }
}

/// No trusted receipt and no trace of the product at all.
pub open spec fn nothing_installed(receipt: Option<Receipt>, s: UninstallSurvey) -> bool {
    &&& receipt is None
    &&& !s.main_present
    &&& !s.helper_present
    &&& !s.receipt_present
    &&& !s.journal_present
    &&& !s.registration_owned
}

/// Why an admitted-to-run uninstall must stop before deleting anything.
pub open spec fn uninstall_refusal(receipt: Option<Receipt>, mode: DataMode, s: UninstallSurvey) -> Option<Seq<char>> {
    if receipt is None && mode == DataMode::RemoveUserData {
        Some("Valid receipt required for data deletion; local data kept"@)
    } else if nothing_installed(receipt, s) {
        None
    } else if receipt is None && !s.registration_owned && !s.journal_present {
        Some("No corroborated managed installation; no files deleted"@)
    } else if receipt matches Some(r) && (r.lifecycle_state == Lifecycle::Updating
        || r.lifecycle_state == Lifecycle::RecoveryRequired) {
        Some("Unsupported recovery state; preserved"@)
    } else {
        None
    }
}

/// The receipt as it is rewritten when an uninstall begins.
pub open spec fn marked_uninstalling(r: Receipt) -> Receipt {
    Receipt { lifecycle_state: Lifecycle::Uninstalling, ..r }
}

/// Decides how an uninstall starts, from the receipt load result, the data
/// choice and the presence checks. A receipt that fails validation is set
/// aside (conservative discovery) unless the failure is of another kind; data
/// deletion needs a trusted receipt; without one, only a registration or an
/// interrupted journal corroborates that something is ours to remove; a
/// receipt in an update or recovery state is never acted on.
pub fn uninstall_start(
    loaded: Result<Option<Receipt>, Error>,
    mode: DataMode,
    survey: &UninstallSurvey,
) -> (r: Result<UninstallStart, Error>)
    ensures
        match loaded {
            Err(e) => !conservative_kind(e.kind) ==> (r matches Err(x) && x == e),
            Ok(_) => true,
        },
        !fatal_load(loaded) ==> {
            let receipt = trusted_receipt(loaded);
            &&& match uninstall_refusal(receipt, mode, *survey) {
                Some(d) => r matches Err(x) && x.kind == ErrorKind::InvalidInstallation && x.detail@ == d,
                None => true,
            }
            &&& (uninstall_refusal(receipt, mode, *survey) is None && nothing_installed(receipt, *survey))
                ==> (r matches Ok(UninstallStart::NothingInstalled))
            &&& (uninstall_refusal(receipt, mode, *survey) is None && !nothing_installed(receipt, *survey))
                ==> (r matches Ok(UninstallStart::Proceed(x)) && x == match receipt {
                    Some(rc) => Some(marked_uninstalling(rc)),
                    None => None,
                })
        },
{
    let receipt = match loaded {
        Ok(r) => r,
        Err(e) => {
            if !conservative_discovery(e.kind) {
                return Err(e);
            }
            None
        },
    };
    if receipt.is_none() && mode == DataMode::RemoveUserData {
        return Err(Error::new(
            ErrorKind::InvalidInstallation,
            "Valid receipt required for data deletion; local data kept".to_string(),
        ));
    }
    if receipt.is_none() && !survey.main_present && !survey.helper_present && !survey.receipt_present
        && !survey.journal_present && !survey.registration_owned {
        return Ok(UninstallStart::NothingInstalled);
    }
    if receipt.is_none() && !survey.registration_owned && !survey.journal_present {
        return Err(Error::new(
            ErrorKind::InvalidInstallation,
            "No corroborated managed installation; no files deleted".to_string(),
        ));
    }
    match receipt {
        Some(mut rc) => {
            if rc.lifecycle_state == Lifecycle::Updating || rc.lifecycle_state == Lifecycle::RecoveryRequired {
                return Err(Error::new(
                    ErrorKind::InvalidInstallation,
                    "Unsupported recovery state; preserved".to_string(),
                ));
            }
            rc.lifecycle_state = Lifecycle::Uninstalling;
            Ok(UninstallStart::Proceed(Some(rc)))
        },
        None => Ok(UninstallStart::Proceed(None)),
    }
}

/// What the helper found once an uninstall was admitted, before removing
/// anything: the notes its integration removal leaves, what sits at the two
/// runtime paths (main executable, then helper; `None` when absent), what
/// sits at each support document the trusted receipt records, and the
/// listings of the data root and of its asset directory.
#[derive(Debug)]
pub struct UninstallFindings {
    pub integration_notes: Vec<String>,
    pub runtime: Vec<Option<RuntimeFile>>,
    pub support_on_disk: Vec<Option<Fingerprint>>,
    pub data_entries: Vec<String>,
    pub assets: Vec<String>,
}

/// What an uninstall decided.
#[derive(Debug)]
pub enum UninstallRun {
    /// Nothing of the product is present: nothing is touched.
    NothingInstalled,
    /// The trusted receipt, marked `Uninstalling` and prepared for saving,
    /// when there is one, and what to remove and report.
    Planned(Option<Receipt>, UninstallPlan),
}

/// `rec` is `from` marked `Uninstalling` and prepared for saving at `now`.
pub open spec fn marked_and_saved(rec: Receipt, from: Receipt, now: Seq<char>) -> bool {
    &&& rec.lifecycle_state == Lifecycle::Uninstalling
    &&& rec.updated_at@ == now
    &&& rec.maintenance.receipt_generation == from.maintenance.receipt_generation + 1
    &&& rec.maintenance.updater_protocol == from.maintenance.updater_protocol
    &&& rec.maintenance.active_session_id == from.maintenance.active_session_id
    &&& rec.maintenance.last_completed_session_id == from.maintenance.last_completed_session_id
    &&& rec.maintenance.committed_manifest_sha256 == from.maintenance.committed_manifest_sha256
    &&& rec.schema_version == from.schema_version
    &&& rec.app_id == from.app_id
    &&& rec.installation_id == from.installation_id
    &&& rec.current_version == from.current_version
    &&& rec.install_root == from.install_root
    &&& rec.data_root == from.data_root
    &&& rec.installed_at == from.installed_at
    &&& rec.runtime_resources == from.runtime_resources
    &&& rec.support_resources == from.support_resources
    &&& rec.integration_resources == from.integration_resources
}

/// The trusted receipt, if any, still validates once marked and stamped.
pub open spec fn save_accepted(receipt: Option<Receipt>, now: Seq<char>, paths: Paths) -> bool {
    match receipt {
        Some(rc) => forall|w: Receipt| #[trigger] marked_and_saved(w, rc, now) ==> w.rejection(&paths) is None,
        None => true,
    }
}

/// Why the journal found (with the size of its file), if any, is not honoured.
pub open spec fn found_journal_refusal(journal: Option<(UninstallJournal, usize)>, paths: Paths) -> Option<(ErrorKind, Seq<char>)> {
    match journal {
        Some(j) => journal_refusal(j.0, j.1, paths),
        None => None,
    }
}

/// Why an uninstall stops before it reads the receipt, in the order the
/// checks run: unsafe roots, a journal that is not honoured, running product
/// processes.
pub open spec fn uninstall_admission_refusal(paths: Paths, journal: Option<(UninstallJournal, usize)>, processes: Seq<ProcessFacts>) -> Option<(ErrorKind, Seq<char>)> {
    if !paths.roots_valid() {
        Some((ErrorKind::UnsafePath, paths.roots_refusal()))
    } else if found_journal_refusal(journal, paths) is Some {
        found_journal_refusal(journal, paths)
    } else if legacy_process_refusal(paths.install_view(), paths.qa_flag(), processes) is Some {
        Some((ErrorKind::MainProcessStillRunning, legacy_process_refusal(paths.install_view(), paths.qa_flag(), processes)->0))
    } else {
        None
    }
}

/// Decides a whole uninstall, once native consent was given and while the
/// maintenance gate is held: validates the roots and any interrupted
/// journal, refuses while the product runs, decides how to start (see
/// `uninstall_start`), marks the trusted receipt `Uninstalling` and prepares
/// it for saving at `now`, and plans what is removed and reported (see
/// `uninstall_plan`). A runtime file that may not be deleted refuses the
/// whole uninstall before anything is removed.
pub fn uninstall_locked(
    paths: &Paths,
    journal: &Option<(UninstallJournal, usize)>,
    processes: &Vec<ProcessFacts>,
    loaded: Result<Option<Receipt>, Error>,
    mode: DataMode,
    survey: &UninstallSurvey,
    now: String,
    findings: UninstallFindings,
) -> (r: Result<UninstallRun, Error>)
    requires
        loaded matches Ok(Some(rc)) ==> rc.maintenance.receipt_generation < u64::MAX,
    ensures
        match uninstall_admission_refusal(*paths, *journal, processes@) {
            Some((k, d)) => r matches Err(e) && e.kind == k && e.detail@ == d,
            None => {
                &&& (loaded matches Err(e) && !conservative_kind(e.kind)) ==> (r matches Err(x) && loaded == Err::<Option<Receipt>, Error>(x))
                &&& !fatal_load(loaded) ==> {
                    let receipt = trusted_receipt(loaded);
                    match uninstall_refusal(receipt, mode, *survey) {
                        Some(d) => r matches Err(e) && e.kind == ErrorKind::InvalidInstallation && e.detail@ == d,
                        None => if nothing_installed(receipt, *survey) {
                            r matches Ok(UninstallRun::NothingInstalled)
                        } else {
                            &&& save_accepted(receipt, now@, *paths) ==> match plan_refusal(receipt, findings.runtime@) {
                                Some((k, d)) => r matches Err(e) && e.kind == k && e.detail@ == d,
                                None => r is Ok,
                            }
                            &&& r matches Err(e) ==> {
                                ||| receipt matches Some(rc) && exists|w: Receipt| #[trigger] marked_and_saved(w, rc, now@)
                                    && w.rejection(paths) == Some(e.kind) && e.detail@ == w.rejection_detail(paths)
                                ||| plan_refusal(receipt, findings.runtime@) == Some((e.kind, e.detail@))
                            }
                            &&& r matches Ok(run) ==> run matches UninstallRun::Planned(saved, p) && {
                                &&& match receipt {
                                    Some(rc) => saved matches Some(w) && marked_and_saved(w, rc, now@) && w.rejection(paths) is None,
                                    None => saved is None,
                                }
                                &&& plans_uninstall(p, receipt, mode, texts(findings.integration_notes@), findings.support_on_disk@,
                                    findings.data_entries@, findings.assets@)
                            }
                        },
                    }
                }
            },
        },
{
    paths.validate()?;
    if let Some((j, n)) = journal {
        j.check(paths, *n)?;
    }
    require_no_legacy_processes(paths, processes)?;
    let ghost l = loaded;
    let start = uninstall_start(loaded, mode, survey)?;
    let receipt = match start {
        UninstallStart::NothingInstalled => return Ok(UninstallRun::NothingInstalled),
        UninstallStart::Proceed(receipt) => receipt,
    };
    let saved = match receipt {
        Some(mut rc) => {
            match rc.prepare_save(paths, now) {
                Ok(()) => {},
                Err(e) => {
                    assert(marked_and_saved(rc, trusted_receipt(l)->0, now@));
                    return Err(e);
                },
            }
            assert(marked_and_saved(rc, trusted_receipt(l)->0, now@));
            Some(rc)
        },
        None => None,
    };
    let UninstallFindings { integration_notes, runtime, support_on_disk, data_entries, assets } = findings;
    let plan = uninstall_plan(&saved, mode, integration_notes, &runtime, &support_on_disk, &data_entries, &assets)?;
    Ok(UninstallRun::Planned(saved, plan))
}

/// The first record of `list` for `identity` sits at index `i`.
pub open spec fn first_record_at(list: Seq<FileRecord>, identity: Resource, i: int) -> bool {
    &&& 0 <= i < list.len()
    &&& list[i].identity == identity
    &&& forall|j: int| 0 <= j < i ==> #[trigger] list[j].identity != identity
}

/// Before a runtime file of a trusted installation is deleted, its bytes must
/// still be the ones the receipt recorded (its first record for that identity);
/// a file without a record, or one that changed, is preserved.
pub fn runtime_removal_check(receipt: &Receipt, identity: Resource, on_disk: &Fingerprint) -> (r: Result<(), Error>)
    ensures
        (forall|j: int| 0 <= j < receipt.runtime_resources@.len()
            ==> #[trigger] receipt.runtime_resources@[j].identity != identity)
            ==> (r matches Err(e) && e.kind == ErrorKind::InvalidInstallation && e.detail@ == "Missing runtime record"@),
        forall|i: int| #[trigger] first_record_at(receipt.runtime_resources@, identity, i) ==> {
            let f = receipt.runtime_resources@[i];
            &&& (r is Ok <==> same_fingerprint(f.size, f.sha256@, *on_disk))
            &&& (r matches Err(e) ==> e.kind == ErrorKind::RuntimeRemovalFailure
                && e.detail@ == "Runtime changed; preserved for manual repair"@)
        },
        match first_record_fits(receipt.runtime_resources@, identity, *on_disk) {
            None => r matches Err(e) && e.kind == ErrorKind::InvalidInstallation && e.detail@ == "Missing runtime record"@,
            Some(true) => r is Ok,
            Some(false) => r matches Err(e) && e.kind == ErrorKind::RuntimeRemovalFailure
                && e.detail@ == "Runtime changed; preserved for manual repair"@,
        },
{
    let ghost list = receipt.runtime_resources@;
    assert(list.skip(0) =~= list);
    let mut j: usize = 0;
    while j < receipt.runtime_resources.len()
        invariant
            j <= receipt.runtime_resources@.len(),
            list == receipt.runtime_resources@,
            forall|k: int| 0 <= k < j ==> #[trigger] receipt.runtime_resources@[k].identity != identity,
            first_record_fits(list, identity, *on_disk) == first_record_fits(list.skip(j as int), identity, *on_disk),
        decreases receipt.runtime_resources.len() - j,
    {
        assert(list.skip(j as int)[0] == list[j as int]);
        assert(list.skip(j as int).drop_first() =~= list.skip(j + 1));
        if receipt.runtime_resources[j].identity == identity {
            assert(first_record_at(receipt.runtime_resources@, identity, j as int));
            assert forall|i: int| #[trigger] first_record_at(receipt.runtime_resources@, identity, i) implies i == j by {
                if i < j {
                    assert(receipt.runtime_resources@[i].identity != identity);
                } else if i > j {
                    assert(receipt.runtime_resources@[j as int].identity != identity);
                }
            }
            if same_fingerprint_exec(receipt.runtime_resources[j].size, &receipt.runtime_resources[j].sha256, on_disk) {
                return Ok(());
            }
            return Err(Error::new(
                ErrorKind::RuntimeRemovalFailure,
                "Runtime changed; preserved for manual repair".to_string(),
            ));
        }
        j = j + 1;
    }
    assert forall|i: int| #[trigger] first_record_at(receipt.runtime_resources@, identity, i) implies false by {
        assert(receipt.runtime_resources@[i].identity != identity);
    }
    Err(Error::new(ErrorKind::InvalidInstallation, "Missing runtime record".to_string()))
}

/// What happens to one recorded support document at uninstall.
#[derive(Debug)]
pub enum SupportDisposal {
    /// The file is gone already.
    Absent,
    /// The file still has its recorded bytes: delete it.
    Remove,
    /// The file was modified: keep it and report this note.
    Preserve(String),
}

/// A support document is deleted only while it still has its recorded bytes;
/// a modified one is kept and reported by name.
pub fn support_disposal(record: &FileRecord, on_disk: Option<Fingerprint>) -> (r: SupportDisposal)
    ensures
        match on_disk {
            None => r is Absent,
            Some(f) => if same_fingerprint(record.size, record.sha256@, f) {
                r is Remove
            } else {
                r matches SupportDisposal::Preserve(note) && note@ == "Modified document "@ + resource_filename(record.identity)
            },
        },
{
    match on_disk {
        None => SupportDisposal::Absent,
        Some(f) => {
            if same_fingerprint_exec(record.size, &record.sha256, &f) {
                SupportDisposal::Remove
            } else {
                SupportDisposal::Preserve(concat2("Modified document ", record.identity.filename()))
            }
        },
    }
}

/// Records, when the installation directory could not be removed because
/// something unknown is left in it, that it was preserved.
pub fn finish_outcome(outcome: &mut Outcome, install_dir_removed: bool)
    ensures
        install_dir_removed ==> final(outcome).preserved@ == old(outcome).preserved@,
        !install_dir_removed ==> final(outcome).preserved@.len() == old(outcome).preserved@.len() + 1
            && final(outcome).preserved@.drop_last() == old(outcome).preserved@
            && final(outcome).preserved@.last()@ == "Unknown files remain in installation directory"@,
{
    if !install_dir_removed {
        outcome.preserved.push("Unknown files remain in installation directory".to_string());
    }
}


/// Text views of a list of owned strings.
pub open spec fn texts(v: Seq<String>) -> Seq<Seq<char>> {
    v.map_values(|s: String| s@)
}

proof fn lemma_texts_push(v: Seq<String>, s: String)
    ensures
        texts(v.push(s)) == texts(v).push(s@),
{
    assert(texts(v.push(s)) =~= texts(v).push(s@));
}

/// The product's database files among the names, in order.
pub open spec fn removable_files(names: Seq<Seq<char>>) -> Seq<Seq<char>>
    decreases names.len(),
{
    if names.len() == 0 {
        Seq::empty()
    } else {
        let rest = removable_files(names.drop_last());
        if is_data_file_name(names.last()) {
            rest.push(names.last())
        } else {
            rest
        }
    }
}

/// The managed images among the names, in order.
pub open spec fn removable_assets(names: Seq<Seq<char>>) -> Seq<Seq<char>>
    decreases names.len(),
{
    if names.len() == 0 {
        Seq::empty()
    } else {
        let rest = removable_assets(names.drop_last());
        if is_asset_file_name(names.last()) {
            rest.push(names.last())
        } else {
            rest
        }
    }
}

/// One note per unknown file in the asset directory.
pub open spec fn asset_notes(names: Seq<Seq<char>>) -> Seq<Seq<char>>
    decreases names.len(),
{
    if names.len() == 0 {
        Seq::empty()
    } else {
        let rest = asset_notes(names.drop_last());
        if is_asset_file_name(names.last()) {
            rest
        } else {
            rest.push("Unknown asset preserved"@)
        }
    }
}

/// The notes a data cleanup adds, entry by entry: nothing for a database
/// file, the asset directory's notes where it is met, one note per unknown
/// entry otherwise.
pub open spec fn cleanup_notes(entries: Seq<Seq<char>>, assets: Seq<Seq<char>>) -> Seq<Seq<char>>
    decreases entries.len(),
{
    if entries.len() == 0 {
        Seq::empty()
    } else {
        let rest = cleanup_notes(entries.drop_last(), assets);
        let name = entries.last();
        if is_data_file_name(name) {
            rest
        } else if name == "assets"@ {
            rest + asset_notes(assets)
        } else {
            rest.push("Unknown data resource preserved"@)
        }
    }
}

/// The entry is the asset directory (and not a database file).
pub open spec fn is_assets_dir(name: Seq<char>) -> bool {
    !is_data_file_name(name) && name == "assets"@
}

/// What a data cleanup deletes: database files of the data root, managed
/// images of its asset directory, and whether that directory is then swept
/// (removed when empty).
#[derive(Debug)]
pub struct DataCleanup {
    pub files: Vec<String>,
    pub assets: Vec<String>,
    pub sweep_assets: bool,
}

fn plan_assets(assets: &Vec<String>, outcome: &mut Outcome) -> (r: Vec<String>)
    ensures
        texts(r@) == removable_assets(texts(assets@)),
        texts(final(outcome).preserved@) == texts(old(outcome).preserved@) + asset_notes(texts(assets@)),
{
    let mut r: Vec<String> = Vec::new();
    let mut i: usize = 0;
    while i < assets.len()
        invariant
            i <= assets@.len(),
            texts(r@) == removable_assets(texts(assets@).take(i as int)),
            texts(outcome.preserved@) == texts(old(outcome).preserved@) + asset_notes(texts(assets@).take(i as int)),
        decreases assets.len() - i,
    {
        let name = assets[i].as_str();
        proof {
            assert(texts(assets@).take(i + 1).drop_last() =~= texts(assets@).take(i as int));
            assert(texts(assets@).take(i + 1).last() == name@);
        }
        if asset_file(name) {
            let kept = owned(name);
            proof { lemma_texts_push(r@, kept); }
            r.push(kept);
        } else {
            let note = "Unknown asset preserved".to_string();
            proof {
                lemma_texts_push(outcome.preserved@, note);
            }
            outcome.preserved.push(note);
        }
        i = i + 1;
    }
    assert(texts(assets@).take(i as int) =~= texts(assets@));
    r
}

/// Plans the deletion of user data from the listing of the data root and of
/// its asset directory: only the product's database files and managed images
/// are deleted; every other entry is kept and noted in `outcome`, in listing
/// order.
pub fn remove_data(entries: &Vec<String>, assets: &Vec<String>, outcome: &mut Outcome) -> (plan: DataCleanup)
    ensures
        texts(plan.files@) == removable_files(texts(entries@)),
        plan.sweep_assets == exists|i: int| 0 <= i < entries@.len() && #[trigger] is_assets_dir(entries@[i]@),
        plan.sweep_assets ==> texts(plan.assets@) == removable_assets(texts(assets@)),
        !plan.sweep_assets ==> plan.assets@.len() == 0,
        texts(final(outcome).preserved@) == texts(old(outcome).preserved@) + cleanup_notes(texts(entries@), texts(assets@)),
{
    let mut files: Vec<String> = Vec::new();
    let mut sweep = false;
    let mut i: usize = 0;
    while i < entries.len()
        invariant
            i <= entries@.len(),
            texts(files@) == removable_files(texts(entries@).take(i as int)),
            sweep == exists|k: int| 0 <= k < i && #[trigger] is_assets_dir(entries@[k]@),
            texts(outcome.preserved@) == texts(old(outcome).preserved@) + cleanup_notes(texts(entries@).take(i as int), texts(assets@)),
        decreases entries.len() - i,
    {
        let name = entries[i].as_str();
        proof {
            assert(texts(entries@).take(i + 1).drop_last() =~= texts(entries@).take(i as int));
            assert(texts(entries@).take(i + 1).last() == name@);
            reveal_strlit("assets");
        }
        if data_file(name) {
            let kept = owned(name);
            proof { lemma_texts_push(files@, kept); }
            files.push(kept);
        } else if crate::text::str_eq(name, "assets") {
            sweep = true;
            let _ = plan_assets(assets, outcome);
            assert(texts(outcome.preserved@) =~= texts(old(outcome).preserved@) + cleanup_notes(texts(entries@).take(i + 1), texts(assets@)));
        } else {
            let note = "Unknown data resource preserved".to_string();
            proof { lemma_texts_push(outcome.preserved@, note); }
            outcome.preserved.push(note);
        }
        assert(is_assets_dir(entries@[i as int]@) == (!is_data_file_name(name@) && name@ == "assets"@));
        i = i + 1;
    }
    assert(texts(entries@).take(i as int) =~= texts(entries@));
    let assets_plan = if sweep {
        let mut scratch = Outcome::empty();
        plan_assets(assets, &mut scratch)
    } else {
        Vec::new()
    };
    DataCleanup { files, assets: assets_plan, sweep_assets: sweep }
}


/// Largest uninstall journal accepted, in bytes.
pub const MAX_JOURNAL_BYTES: usize = 262144;

/// The durable marker of an uninstall in progress, rewritten at each phase.
#[derive(Debug)]
pub struct UninstallJournal {
    pub schema_version: u32,
    pub app_id: String,
    pub installation_id: Option<String>,
    pub install_root: String,
    pub phase: String,
}

/// Why a journal left by an interrupted uninstall (read from a file of
/// `byte_len` bytes) is not honoured: too large, of another schema, product
/// or install root, or naming an identifier that is not canonical.
pub open spec fn journal_refusal(j: UninstallJournal, byte_len: usize, paths: Paths) -> Option<(ErrorKind, Seq<char>)> {
    if byte_len > MAX_JOURNAL_BYTES || j.schema_version != 1 || j.app_id@ != APP_ID@
        || !eq_ignore_case(j.install_root@, paths.install_view()) {
        Some((ErrorKind::InvalidInstallation, "Uninstall journal mismatch"@))
    } else if j.installation_id matches Some(id) && !canonical_uuid(id@) {
        Some((ErrorKind::ReceiptMalformed, "Invalid canonical UUID"@))
    } else {
        None
    }
}

impl UninstallJournal {
    /// The journal entry for entering `phase`, tied to this installation.
    pub fn new(paths: &Paths, receipt: &Option<Receipt>, phase: &str) -> (j: Self)
        ensures
            j.schema_version == 1,
            j.app_id@ == APP_ID@,
            j.install_root@ == paths.install_view(),
            j.phase@ == phase@,
            match receipt {
                Some(r) => j.installation_id matches Some(id) && id@ == r.installation_id@,
                None => j.installation_id is None,
            },
    {
        let installation_id = match receipt {
            Some(r) => Some(owned(r.installation_id.as_str())),
            None => None,
        };
        UninstallJournal {
            schema_version: 1,
            app_id: owned(APP_ID),
            installation_id,
            install_root: owned(paths.install()),
            phase: owned(phase),
        }
    }

    /// A journal left by an interrupted uninstall is honoured only when it is
    /// small, of schema 1, of this product and of this install root, and names
    /// a canonical installation identifier if it names one. `byte_len` is the
    /// size of the file it was read from.
    pub fn check(&self, paths: &Paths, byte_len: usize) -> (r: Result<(), Error>)
        ensures
            match journal_refusal(*self, byte_len, *paths) {
                None => r is Ok,
                Some((k, d)) => r matches Err(e) && e.kind == k && e.detail@ == d,
            },
    {
        if byte_len > MAX_JOURNAL_BYTES || self.schema_version != 1 || !str_eq(self.app_id.as_str(), APP_ID)
            || !equal(self.install_root.as_str(), paths.install()) {
            return Err(Error::new(ErrorKind::InvalidInstallation, "Uninstall journal mismatch".to_string()));
        }
        match &self.installation_id {
            Some(id) => validate_uuid(id.as_str()),
            None => Ok(()),
        }
    }
}


/// Data deletion is granted only by a trusted receipt: whenever
/// `can_remove_data` is false for a load result, an uninstall asked to delete
/// user data stops before deleting anything (with the load error itself or
/// with a refusal).
pub proof fn data_removal_needs_trusted_receipt(loaded: Result<Option<Receipt>, Error>, survey: UninstallSurvey)
    requires
        !(loaded matches Ok(Some(_))),
    ensures
        fatal_load(loaded) || uninstall_refusal(trusted_receipt(loaded), DataMode::RemoveUserData, survey) is Some,
{
}

/// Reinstalling the release that is installed is never refused as a
/// downgrade or a recovery state: with no uninstall pending, an `Installed`
/// receipt of a readable version equal to the installer's passes every check
/// that comes before the runtime files are compared.
pub proof fn same_release_reinstall_passes_prechecks(survey: InstallSurvey, product: Seq<char>)
    requires
        !survey.uninstall_pending,
        survey.previous is Some,
        survey.previous->0.lifecycle_state == Lifecycle::Installed,
        survey.previous->0.current_version is Some,
        survey.previous->0.current_version->0@ == product,
        version_triple(product) is Some,
    ensures
        early_refusal(survey, product) is None,
{
}

/// A foreign file at any runtime path refuses the install: the installer
/// never overwrites bytes that neither the previous receipt nor this payload
/// accounts for.
pub proof fn foreign_runtime_refuses_install(survey: InstallSurvey, product: Seq<char>, i: int)
    requires
        conflict_at(survey, i, product),
    ensures
        install_refusal(survey, product) is Some,
{
}

/// Whether the first record of `list` for `identity` fits the fingerprint
/// (`None` when there is no record for it).
pub open spec fn first_record_fits(list: Seq<FileRecord>, identity: Resource, f: Fingerprint) -> Option<bool>
    decreases list.len(),
{
    if list.len() == 0 {
        None
    } else if list[0].identity == identity {
        Some(same_fingerprint(list[0].size, list[0].sha256@, f))
    } else {
        first_record_fits(list.drop_first(), identity, f)
    }
}

/// The first record for an identity decides whether a file fits it.
proof fn lemma_first_record_fits(list: Seq<FileRecord>, identity: Resource, f: Fingerprint, i: int)
    requires
        first_record_at(list, identity, i),
    ensures
        first_record_fits(list, identity, f) == Some(same_fingerprint(list[i].size, list[i].sha256@, f)),
    decreases i,
{
    if i > 0 {
        assert(list[0].identity != identity);
        assert forall|j: int| 0 <= j < i - 1 implies #[trigger] list.drop_first()[j].identity != identity by {
            assert(list.drop_first()[j] == list[j + 1]);
        }
        lemma_first_record_fits(list.drop_first(), identity, f, i - 1);
    }
}

/// A trusted installation whose main executable no longer holds the bytes
/// its record names is never removed: the runtime step refuses with a
/// runtime removal failure, before any file or data is deleted.
pub proof fn changed_runtime_refuses_uninstall(receipt: Receipt, runtime: Seq<Option<RuntimeFile>>, i: int)
    requires
        first_record_at(receipt.runtime_resources@, Resource::MainExecutable, i),
        observed(runtime, 0) matches Some(file) && !same_fingerprint(receipt.runtime_resources@[i].size,
            receipt.runtime_resources@[i].sha256@, file.fingerprint),
    ensures
        plan_refusal(Some(receipt), runtime) == Some((ErrorKind::RuntimeRemovalFailure, "Runtime changed; preserved for manual repair"@)),
{
    lemma_first_record_fits(receipt.runtime_resources@, Resource::MainExecutable, observed(runtime, 0)->0.fingerprint, i);
}

/// A runtime executable found in the installation directory.
#[derive(Debug)]
pub struct RuntimeFile {
    pub fingerprint: Fingerprint,
    /// Without a trusted receipt: the refusal `product_version` gave for the
    /// file, if it gave one.
    pub version_refusal: Option<Error>,
}

/// The runtime identities, in the order an uninstall removes them.
pub open spec fn runtime_at(i: int) -> Resource {
    if i == 0 { Resource::MainExecutable } else { Resource::MaintenanceHelper }
}

/// Why the runtime file at `identity` may not be deleted: with a trusted
/// receipt, a missing record or changed bytes; without one, a file that is
/// not this product's executable.
pub open spec fn runtime_refusal(receipt: Option<Receipt>, identity: Resource, file: Option<RuntimeFile>) -> Option<(ErrorKind, Seq<char>)> {
    match file {
        None => None,
        Some(f) => match receipt {
            Some(r) => match first_record_fits(r.runtime_resources@, identity, f.fingerprint) {
                None => Some((ErrorKind::InvalidInstallation, "Missing runtime record"@)),
                Some(true) => None,
                Some(false) => Some((ErrorKind::RuntimeRemovalFailure, "Runtime changed; preserved for manual repair"@)),
            },
            None => match f.version_refusal {
                Some(e) => Some((e.kind, e.detail@)),
                None => None,
            },
        },
    }
}

/// The refusal of the runtime step, the main executable checked first.
pub open spec fn plan_refusal(receipt: Option<Receipt>, runtime: Seq<Option<RuntimeFile>>) -> Option<(ErrorKind, Seq<char>)> {
    match runtime_refusal(receipt, runtime_at(0), observed(runtime, 0)) {
        Some(x) => Some(x),
        None => runtime_refusal(receipt, runtime_at(1), observed(runtime, 1)),
    }
}

/// The support documents deleted: those still holding their recorded bytes.
pub open spec fn support_removals(records: Seq<FileRecord>, disk: Seq<Option<Fingerprint>>) -> Seq<Resource>
    decreases records.len(),
{
    if records.len() == 0 {
        Seq::empty()
    } else {
        let i = records.len() - 1;
        let rest = support_removals(records.drop_last(), disk);
        if observed(disk, i) matches Some(f) && same_fingerprint(records[i].size, records[i].sha256@, f) {
            rest.push(records[i].identity)
        } else {
            rest
        }
    }
}

/// One note per support document that was modified.
pub open spec fn support_notes(records: Seq<FileRecord>, disk: Seq<Option<Fingerprint>>) -> Seq<Seq<char>>
    decreases records.len(),
{
    if records.len() == 0 {
        Seq::empty()
    } else {
        let i = records.len() - 1;
        let rest = support_notes(records.drop_last(), disk);
        if observed(disk, i) matches Some(f) && !same_fingerprint(records[i].size, records[i].sha256@, f) {
            rest.push("Modified document "@ + resource_filename(records[i].identity))
        } else {
            rest
        }
    }
}

/// A data cleanup deletes exactly the product's database files and, when it
/// sweeps the asset directory, exactly its managed images.
pub open spec fn data_plan_ok(c: DataCleanup, entries: Seq<String>, assets: Seq<String>) -> bool {
    &&& texts(c.files@) == removable_files(texts(entries))
    &&& c.sweep_assets == exists|i: int| 0 <= i < entries.len() && #[trigger] is_assets_dir(entries[i]@)
    &&& c.sweep_assets ==> texts(c.assets@) == removable_assets(texts(assets))
    &&& !c.sweep_assets ==> c.assets@.len() == 0
}

/// `p` is the plan of an uninstall with this trusted receipt (if any), data
/// choice and findings: both runtime executables, the support documents that
/// still hold their recorded bytes, with `RemoveUserData` exactly the
/// product's data files and managed images, the receipt when there is one and
/// the journal are removed; the integration's notes, one per modified
/// document and, when data is removed, one per unknown data entry or asset
/// are reported, in that order.
pub open spec fn plans_uninstall(
    p: UninstallPlan,
    receipt: Option<Receipt>,
    mode: DataMode,
    integration_notes: Seq<Seq<char>>,
    support_on_disk: Seq<Option<Fingerprint>>,
    data_entries: Seq<String>,
    assets: Seq<String>,
) -> bool {
    &&& p.remove_runtime@ == seq![Resource::MainExecutable, Resource::MaintenanceHelper]
    &&& p.remove_support@ == match receipt {
        Some(rc) => support_removals(rc.support_resources@, support_on_disk),
        None => Seq::empty(),
    }
    &&& p.remove_receipt == receipt is Some
    &&& p.remove_journal
    &&& (mode == DataMode::KeepUserData ==> p.data is None)
    &&& (mode == DataMode::RemoveUserData ==> (p.data matches Some(c) && data_plan_ok(c, data_entries, assets)))
    &&& texts(p.outcome.preserved@) == integration_notes
        + match receipt {
            Some(rc) => support_notes(rc.support_resources@, support_on_disk),
            None => Seq::empty(),
        }
        + if mode == DataMode::RemoveUserData {
            cleanup_notes(texts(data_entries), texts(assets))
        } else {
            Seq::empty()
        }
}

/// What an admitted uninstall deletes and reports once its integration is
/// removed. Both runtime executables are removed (a missing one is no
/// error); support documents only with their recorded bytes; user data only
/// when asked, and then only the product's own files; the receipt when one
/// was trusted; the journal last. `outcome` holds the notes so far;
/// `finish_outcome` adds the installation directory's after the removals.
#[derive(Debug)]
pub struct UninstallPlan {
    pub remove_runtime: Vec<Resource>,
    pub remove_support: Vec<Resource>,
    pub data: Option<DataCleanup>,
    pub remove_receipt: bool,
    pub remove_journal: bool,
    pub outcome: Outcome,
}

fn support_plan(records: &Vec<FileRecord>, disk: &Vec<Option<Fingerprint>>, notes: &mut Vec<String>) -> (r: Vec<Resource>)
    ensures
        r@ == support_removals(records@, disk@),
        texts(final(notes)@) == texts(old(notes)@) + support_notes(records@, disk@),
{
    let mut removed: Vec<Resource> = Vec::new();
    let mut i: usize = 0;
    let ghost start = texts(notes@);
    while i < records.len()
        invariant
            i <= records@.len(),
            removed@ == support_removals(records@.take(i as int), disk@),
            texts(notes@) == start + support_notes(records@.take(i as int), disk@),
        decreases records.len() - i,
    {
        assert(records@.take(i + 1).drop_last() =~= records@.take(i as int));
        let on_disk: Option<&Fingerprint> = if i < disk.len() {
            match &disk[i] {
                Some(f) => Some(f),
                None => None,
            }
        } else {
            None
        };
        match on_disk {
            Some(f) => {
                if same_fingerprint_exec(records[i].size, &records[i].sha256, f) {
                    removed.push(records[i].identity);
                } else {
                    let note = concat2("Modified document ", records[i].identity.filename());
                    proof { lemma_texts_push(notes@, note); }
                    notes.push(note);
                }
            },
            None => {},
        }
        i = i + 1;
    }
    assert(records@.take(i as int) =~= records@);
    removed
}

/// Plans the rest of an uninstall once it was admitted (`receipt` is the
/// trusted receipt, if any) and its integration removed
/// (`integration_notes`). `runtime` holds what sits at the two runtime paths
/// (main executable, then helper; `None` when absent), `support_on_disk`
/// what sits at each recorded support document, and `data_entries` and
/// `assets` the listings of the data root and its asset directory. A runtime
/// file that may not be deleted refuses the whole step, before any data is
/// touched.
pub fn uninstall_plan(
    receipt: &Option<Receipt>,
    mode: DataMode,
    integration_notes: Vec<String>,
    runtime: &Vec<Option<RuntimeFile>>,
    support_on_disk: &Vec<Option<Fingerprint>>,
    data_entries: &Vec<String>,
    assets: &Vec<String>,
) -> (r: Result<UninstallPlan, Error>)
    ensures
        match plan_refusal(*receipt, runtime@) {
            Some((kind, detail)) => r matches Err(e) && e.kind == kind && e.detail@ == detail,
            None => r matches Ok(p) && plans_uninstall(p, *receipt, mode, texts(integration_notes@), support_on_disk@,
                data_entries@, assets@),
        },
{
    let mut k: usize = 0;
    while k < 2
        invariant
            k <= 2,
            forall|j: int| 0 <= j < k ==> #[trigger] runtime_refusal(*receipt, runtime_at(j), observed(runtime@, j)) is None,
        decreases 2 - k,
    {
        let identity = if k == 0 { Resource::MainExecutable } else { Resource::MaintenanceHelper };
        if k < runtime.len() {
            if let Some(file) = &runtime[k] {
                match receipt {
                    Some(rc) => {
                        runtime_removal_check(rc, identity, &file.fingerprint)?;
                    },
                    None => {
                        if let Some(e) = &file.version_refusal {
                            return Err(Error::new(e.kind, owned(e.detail.as_str())));
                        }
                    },
                }
            }
        }
        assert(runtime_refusal(*receipt, runtime_at(k as int), observed(runtime@, k as int)) is None);
        k = k + 1;
    }
    let mut notes = integration_notes;
    let ghost integration = texts(notes@);
    let remove_support = match receipt {
        Some(rc) => support_plan(&rc.support_resources, support_on_disk, &mut notes),
        None => {
            assert(texts(notes@) =~= integration + Seq::<Seq<char>>::empty());
            Vec::new()
        },
    };
    let ghost before_data = texts(notes@);
    let mut outcome = Outcome { preserved: notes };
    let data = if mode == DataMode::RemoveUserData {
        Some(remove_data(data_entries, assets, &mut outcome))
    } else {
        assert(texts(outcome.preserved@) =~= before_data + Seq::<Seq<char>>::empty());
        None
    };
    let mut remove_runtime: Vec<Resource> = Vec::new();
    remove_runtime.push(Resource::MainExecutable);
    remove_runtime.push(Resource::MaintenanceHelper);
    let plan = UninstallPlan {
        remove_runtime,
        remove_support,
        data,
        remove_receipt: receipt.is_some(),
        remove_journal: true,
        outcome,
    };
    assert(plan.remove_runtime@ =~= seq![Resource::MainExecutable, Resource::MaintenanceHelper]);
    assert(plans_uninstall(plan, *receipt, mode, integration, support_on_disk@, data_entries@, assets@));
    Ok(plan)
}

} // verus!
