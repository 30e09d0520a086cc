//! Compiled ownership policy: the exact files a managed installation owns.
use vstd::prelude::*;
use crate::maintenance::{HELPER_EXE, MAIN_EXE};
use crate::maintenance::receipt::{canonical_uuid, validate_uuid};
use crate::text::{eq_ignore_case, has_prefix, last_index_of, str_eq, str_eq_ignore_case, starts_with, find_last};

verus! {

/// One distributed file identity.
#[derive(Debug, Clone, Copy, PartialEq, Eq, Hash, Structural)]
pub enum Resource {
    MainExecutable,
    MaintenanceHelper,
    Readme,
    ReadmeZh,
    License,
    LicenseZh,
    ThirdPartyNotices,
}

/// The file name of each identity.
pub open spec fn resource_filename(r: Resource) -> Seq<char> {
    match r {
        Resource::MainExecutable => MAIN_EXE@,
        Resource::MaintenanceHelper => HELPER_EXE@,
        Resource::Readme => "README.md"@,
        Resource::ReadmeZh => "README_ZH.md"@,
        Resource::License => "LICENSE"@,
        Resource::LicenseZh => "LICENSE_ZH.md"@,
        Resource::ThirdPartyNotices => "THIRD_PARTY_NOTICES.md"@,
    }
}

/// Every identity, in declaration order.
pub open spec fn all_resources() -> Seq<Resource> {
    seq![
        Resource::MainExecutable,
        Resource::MaintenanceHelper,
        Resource::Readme,
        Resource::ReadmeZh,
        Resource::License,
        Resource::LicenseZh,
        Resource::ThirdPartyNotices,
    ]
}

/// The first identity (in declaration order) whose file name matches `name`
/// without regard to ASCII case.
pub open spec fn resource_for_name(name: Seq<char>) -> Option<Resource> {
    first_matching(all_resources(), name)
}

pub open spec fn first_matching(rs: Seq<Resource>, name: Seq<char>) -> Option<Resource>
    decreases rs.len(),
{
    if rs.len() == 0 {
        None
    } else if eq_ignore_case(resource_filename(rs[0]), name) {
        Some(rs[0])
    } else {
        first_matching(rs.drop_first(), name)
    }
}

impl Resource {
    /// The installed file name of this identity.
    pub fn filename(self) -> (r: &'static str)
        ensures
            r@ == resource_filename(self),
    {
        match self {
            Resource::MainExecutable => MAIN_EXE,
            Resource::MaintenanceHelper => HELPER_EXE,
            Resource::Readme => "README.md",
            Resource::ReadmeZh => "README_ZH.md",
            Resource::License => "LICENSE",
            Resource::LicenseZh => "LICENSE_ZH.md",
            Resource::ThirdPartyNotices => "THIRD_PARTY_NOTICES.md",
        }
    }

    /// Only the two executables are runtime identities; documents are support files.
    pub fn runtime(self) -> (r: bool)
        ensures
            r <==> (self == Resource::MainExecutable || self == Resource::MaintenanceHelper),
    {
        match self {
            Resource::MainExecutable | Resource::MaintenanceHelper => true,
            _ => false,
        }
    }

    /// Looks an identity up by file name, ignoring ASCII case; anything else is unowned.
    pub fn from_filename(name: &str) -> (r: Option<Self>)
        ensures
            r == resource_for_name(name@),
    {
        let order = [
            Resource::MainExecutable,
            Resource::MaintenanceHelper,
            Resource::Readme,
            Resource::ReadmeZh,
            Resource::License,
            Resource::LicenseZh,
            Resource::ThirdPartyNotices,
        ];
        let mut i: usize = 0;
        assert(all_resources().skip(0) =~= all_resources());
        while i < 7
            invariant
                i <= 7,
                order@ == all_resources(),
                first_matching(all_resources(), name@) == first_matching(all_resources().skip(i as int), name@),
            decreases 7 - i,
        {
            let candidate = order[i];
            proof {
                let rest = all_resources().skip(i as int);
                assert(rest[0] == candidate);
                assert(rest.drop_first() =~= all_resources().skip(i + 1));
            }
            if str_eq_ignore_case(candidate.filename(), name) {
                return Some(candidate);
            }
            i = i + 1;
        }
        assert(all_resources().skip(7) =~= Seq::<Resource>::empty());
        None
    }
}

/// How the maintenance helper treats one file it finds.
#[derive(Debug, Clone, Copy, PartialEq, Eq, Structural)]
pub enum Ownership {
    Runtime,
    Integration,
    PersistentData,
    Ephemeral,
    Unknown,
}

/// The database file names the product owns in its data root.
pub open spec fn is_data_file_name(name: Seq<char>) -> bool {
    ||| eq_ignore_case("alan-desktop.sqlite3"@, name)
    ||| eq_ignore_case("alan-desktop.sqlite3-wal"@, name)
    ||| eq_ignore_case("alan-desktop.sqlite3-shm"@, name)
    ||| eq_ignore_case("alan-desktop.sqlite3-journal"@, name)
}

/// True for the product's own database files, compared without ASCII case.
pub fn data_file(name: &str) -> (r: bool)
    ensures
        r == is_data_file_name(name@),
{
    str_eq_ignore_case("alan-desktop.sqlite3", name)
        || str_eq_ignore_case("alan-desktop.sqlite3-wal", name)
        || str_eq_ignore_case("alan-desktop.sqlite3-shm", name)
        || str_eq_ignore_case("alan-desktop.sqlite3-journal", name)
}

/// The managed image extensions, compared exactly.
pub open spec fn is_asset_extension(ext: Seq<char>) -> bool {
    ext == "png"@ || ext == "jpg"@ || ext == "jpeg"@ || ext == "webp"@
}

/// The identifier part of a managed asset base name (`avatar-<id>` or `background-<id>`).
pub open spec fn asset_id_part(base: Seq<char>) -> Option<Seq<char>> {
    if has_prefix(base, "avatar-"@) {
        Some(base.skip("avatar-"@.len() as int))
    } else if has_prefix(base, "background-"@) {
        Some(base.skip("background-"@.len() as int))
    } else {
        None
    }
}

/// A managed asset file is `avatar-<uuid>.<ext>` or `background-<uuid>.<ext>`,
/// where the text after the last dot is a managed image extension and the
/// identifier is canonical.
pub open spec fn is_asset_file_name(name: Seq<char>) -> bool {
    match last_index_of(name, '.') {
        None => false,
        Some(dot) => {
            let base = name.take(dot);
            let ext = name.skip(dot + 1);
            match asset_id_part(base) {
                None => false,
                Some(id) => is_asset_extension(ext) && canonical_uuid(id),
            }
        },
    }
}

/// True for an app-owned image in the data root's asset directory.
pub fn asset_file(name: &str) -> (r: bool)
    ensures
        r == is_asset_file_name(name@),
{
    let dot = match find_last(name, '.') {
        Some(dot) => dot,
        None => return false,
    };
    proof {
        crate::text::lemma_last_index_of(name@, '.');
    }
    let n = name.unicode_len();
    let base = name.substring_char(0, dot);
    let ext = name.substring_char(dot + 1, n);
    assert(base@ =~= name@.take(dot as int));
    assert(ext@ =~= name@.skip(dot + 1));
    let id = if starts_with(base, "avatar-") {
        let b = base.unicode_len();
        let len = "avatar-".unicode_len();
        base.substring_char(len, b)
    } else if starts_with(base, "background-") {
        let b = base.unicode_len();
        let len = "background-".unicode_len();
        base.substring_char(len, b)
    } else {
        return false;
    };
    assert(asset_id_part(base@) == Some(id@));
    let ext_ok = str_eq(ext, "png") || str_eq(ext, "jpg") || str_eq(ext, "jpeg") || str_eq(ext, "webp");
    ext_ok && validate_uuid(id).is_ok()
}


/// File-name lookup inverts `filename`: the name of every identity, in any
/// ASCII case it is stored with, resolves back to that same identity.
pub proof fn filename_lookup_round_trips(r: Resource)
    ensures
        resource_for_name(resource_filename(r)) == Some(r),
{
    reveal_strlit("desktop-todo-widget.exe");
    reveal_strlit("desktop-todo-maintenance.exe");
    reveal_strlit("README.md");
    reveal_strlit("README_ZH.md");
    reveal_strlit("LICENSE");
    reveal_strlit("LICENSE_ZH.md");
    reveal_strlit("THIRD_PARTY_NOTICES.md");
    reveal_with_fuel(first_matching, 8);
    let name = resource_filename(r);
    assert(eq_ignore_case(name, name));
    let rs = all_resources();
    assert(rs.drop_first() =~= rs.subrange(1, 7));
    assert(rs.drop_first().drop_first() =~= rs.subrange(2, 7));
    assert(rs.subrange(2, 7).drop_first() =~= rs.subrange(3, 7));
    assert(rs.subrange(3, 7).drop_first() =~= rs.subrange(4, 7));
    assert(rs.subrange(4, 7).drop_first() =~= rs.subrange(5, 7));
    assert(rs.subrange(5, 7).drop_first() =~= rs.subrange(6, 7));
}

} // verus!
