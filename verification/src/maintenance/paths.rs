//! Installation roots and the Windows path syntax policy.
//!
//! Paths are held as text with Windows semantics: a drive letter and colon,
//! a root separator, then components separated by `\` or `/`. Empty and `.`
//! components are normalized away, exactly as Windows path parsing does.
use vstd::prelude::*;
use crate::maintenance::APP_ID;
use crate::maintenance::error::{Error, ErrorKind};
use crate::text::{ascii_upper, chars_vec, concat2, contains_char, eq_ignore_case, has_prefix, is_alpha, is_digit, lemma_split_any_nonempty, split_any, split_any_exec, starts_with, str_eq, str_eq_ignore_case, views, char_to_upper};

verus! {

/// Windows path separators.
pub open spec fn is_sep(c: char) -> bool {
    c == '\\' || c == '/'
}

/// Joins `base` and `name` with a backslash, unless `base` already ends in a
/// separator (the behaviour of `PathBuf::join` for a relative `name`).
pub open spec fn join_spec(base: Seq<char>, name: Seq<char>) -> Seq<char> {
    if base.len() > 0 && is_sep(base.last()) {
        base + name
    } else {
        base + seq!['\\'] + name
    }
}

/// Appends one relative component to a path.
pub fn join(base: &str, name: &str) -> (r: String)
    ensures
        r@ == join_spec(base@, name@),
{
    let base_chars = chars_vec(base);
    let n = base.unicode_len();
    if n > 0 {
        let last = base_chars[n - 1];
        if last == '\\' || last == '/' {
            assert(base@.last() == last);
            return concat2(base, name);
        }
    }
    let with_sep = concat2(base, "\\");
    proof {
        reveal_strlit("\\");
    }
    let r = concat2(with_sep.as_str(), name);
    assert(r@ =~= base@ + seq!['\\'] + name@);
    r
}

/// Paths compare equal when their text is equal up to ASCII case.
pub fn equal(a: &str, b: &str) -> (r: bool)
    ensures
        r == eq_ignore_case(a@, b@),
{
    str_eq_ignore_case(a, b)
}

/// An absolute local drive path: a drive letter, a colon and a root separator.
pub open spec fn is_absolute_drive(p: Seq<char>) -> bool {
    p.len() >= 3 && is_alpha(p[0]) && p[1] == ':' && is_sep(p[2])
}

/// The component text after the root, split at either separator.
pub open spec fn raw_components(p: Seq<char>) -> Seq<Seq<char>> {
    split_any(p.skip(3), "\\/"@)
}

/// Characters Windows forbids or reinterprets inside a file name.
pub open spec fn is_forbidden_name_char(c: char) -> bool {
    c == ':' || c == '"' || c == '<' || c == '>' || c == '|' || c == '?' || c == '*'
}

/// The upper-cased text before the first dot of a name.
pub open spec fn upper_stem(name: Seq<char>) -> Seq<char> {
    split_any(name, "."@)[0].map_values(|c: char| ascii_upper(c))
}

/// DOS device names that Windows resolves regardless of directory.
pub open spec fn is_reserved_stem(stem: Seq<char>) -> bool {
    ||| stem == "CON"@
    ||| stem == "PRN"@
    ||| stem == "AUX"@
    ||| stem == "NUL"@
    ||| (stem.len() == 4 && (has_prefix(stem, "COM"@) || has_prefix(stem, "LPT"@)) && is_digit(stem[3]))
}

/// A normal component is acceptable when it holds no forbidden character, does
/// not end in a dot or space and does not name a device.
pub open spec fn normal_component_ok(name: Seq<char>) -> bool {
    &&& !exists|i: int| 0 <= i < name.len() && #[trigger] is_forbidden_name_char(name[i])
    &&& !(name.len() > 0 && (name.last() == '.' || name.last() == ' '))
    &&& !is_reserved_stem(upper_stem(name))
}

/// One piece between separators: empty and `.` pieces vanish, `..` is a
/// parent reference and is refused, anything else is a normal component.
pub open spec fn piece_ok(piece: Seq<char>) -> bool {
    piece.len() == 0 || piece == "."@ || (piece != ".."@ && normal_component_ok(piece))
}

/// The maintenance path policy: only absolute local drive paths without NUL,
/// parent references or ambiguous component names.
pub open spec fn path_syntax_ok(p: Seq<char>) -> bool {
    &&& is_absolute_drive(p)
    &&& !has_prefix(p, "\\\\"@)
    &&& !p.contains('\0')
    &&& forall|i: int| 0 <= i < raw_components(p).len() ==> piece_ok(#[trigger] raw_components(p)[i])
}

fn component_ok(piece: &str) -> (r: bool)
    ensures
        r == piece_ok(piece@),
{
    let piece_chars = chars_vec(piece);
    let n = piece.unicode_len();
    if n == 0 || str_eq(piece, ".") {
        return true;
    }
    if str_eq(piece, "..") {
        return false;
    }
    let mut i: usize = 0;
    while i < n
        invariant
            piece_chars@ == piece@,
            n == piece@.len(),
            n > 0,
            piece@ != "."@,
            piece@ != ".."@,
            i <= n,
            forall|j: int| 0 <= j < i ==> !is_forbidden_name_char(#[trigger] piece@[j]),
        decreases n - i,
    {
        let c = piece_chars[i];
        if c == ':' || c == '"' || c == '<' || c == '>' || c == '|' || c == '?' || c == '*' {
            assert(is_forbidden_name_char(piece@[i as int]));
            assert(!normal_component_ok(piece@));
            assert(piece@.len() != 0 && piece@ != "."@);
            return false;
        }
        i = i + 1;
    }
    let last = piece_chars[n - 1];
    if last == '.' || last == ' ' {
        return false;
    }
    let parts = split_any_exec(piece, ".");
    proof {
        lemma_split_any_nonempty(piece@, "."@);
    }
    let first = parts[0];
    let m = first.unicode_len();
    let first_chars = chars_vec(first);
    let mut stem: Vec<char> = Vec::new();
    let mut k: usize = 0;
    while k < m
        invariant
            first_chars@ == first@,
            m == first@.len(),
            k <= m,
            stem@ == first@.take(k as int).map_values(|c: char| ascii_upper(c)),
        decreases m - k,
    {
        let c = char_to_upper(first_chars[k]);
        proof {
            assert(first@.take(k + 1).map_values(|c: char| ascii_upper(c))
                =~= first@.take(k as int).map_values(|c: char| ascii_upper(c)).push(ascii_upper(first@[k as int])));
        }
        stem.push(c);
        k = k + 1;
    }
    assert(first@.take(m as int) =~= first@);
    assert(stem@ == upper_stem(piece@));
    let reserved = stem_is_reserved(&stem);
    !reserved
}

fn stem_is_reserved(stem: &Vec<char>) -> (r: bool)
    ensures
        r == is_reserved_stem(stem@),
{
    proof {
        reveal_strlit("CON");
        reveal_strlit("PRN");
        reveal_strlit("AUX");
        reveal_strlit("NUL");
        reveal_strlit("COM");
        reveal_strlit("LPT");
    }
    let n = stem.len();
    if n == 3 {
        let a = stem[0];
        let b = stem[1];
        let c = stem[2];
        let r = (a == 'C' && b == 'O' && c == 'N') || (a == 'P' && b == 'R' && c == 'N')
            || (a == 'A' && b == 'U' && c == 'X') || (a == 'N' && b == 'U' && c == 'L');
        assert(r ==> is_reserved_stem(stem@)) by {
            if a == 'C' && b == 'O' && c == 'N' {
                assert(stem@ =~= "CON"@);
            } else if a == 'P' && b == 'R' && c == 'N' {
                assert(stem@ =~= "PRN"@);
            } else if a == 'A' && b == 'U' && c == 'X' {
                assert(stem@ =~= "AUX"@);
            } else if a == 'N' && b == 'U' && c == 'L' {
                assert(stem@ =~= "NUL"@);
            }
        }
        r
    } else if n == 4 {
        let a = stem[0];
        let b = stem[1];
        let c = stem[2];
        let d = stem[3];
        let com = a == 'C' && b == 'O' && c == 'M';
        let lpt = a == 'L' && b == 'P' && c == 'T';
        assert(com ==> has_prefix(stem@, "COM"@)) by {
            if com {
                assert(stem@.take(3) =~= "COM"@);
            }
        }
        assert(lpt ==> has_prefix(stem@, "LPT"@)) by {
            if lpt {
                assert(stem@.take(3) =~= "LPT"@);
            }
        }
        assert(has_prefix(stem@, "COM"@) ==> com) by {
            if has_prefix(stem@, "COM"@) {
                assert(stem@.take(3)[0] == 'C');
                assert(stem@.take(3)[1] == 'O');
                assert(stem@.take(3)[2] == 'M');
            }
        }
        assert(has_prefix(stem@, "LPT"@) ==> lpt) by {
            if has_prefix(stem@, "LPT"@) {
                assert(stem@.take(3)[0] == 'L');
                assert(stem@.take(3)[1] == 'P');
                assert(stem@.take(3)[2] == 'T');
            }
        }
        (com || lpt) && '0' <= d && d <= '9'
    } else {
        false
    }
}

/// The refusal of the first component that breaks the policy: a `..` is a
/// relative component, anything else is ambiguous.
pub open spec fn component_refusal(pieces: Seq<Seq<char>>) -> Seq<char>
    decreases pieces.len(),
{
    if pieces.len() == 0 {
        "Ambiguous Windows path component"@
    } else if !piece_ok(pieces[0]) {
        if pieces[0] == ".."@ { "Relative path component"@ } else { "Ambiguous Windows path component"@ }
    } else {
        component_refusal(pieces.drop_first())
    }
}

/// Why a path breaks the policy: it is no local drive path, or one of its
/// components is relative or ambiguous.
pub open spec fn path_refusal_detail(p: Seq<char>) -> Seq<char> {
    if !is_absolute_drive(p) || has_prefix(p, "\\\\"@) || p.contains('\0') {
        "Only absolute local drive paths are supported"@
    } else {
        component_refusal(raw_components(p))
    }
}

/// Checks the path policy. Only absolute local drive paths are accepted; every
/// component must be unambiguous on Windows.
pub fn safe_syntax(path: &str) -> (r: Result<(), Error>)
    ensures
        r is Ok <==> path_syntax_ok(path@),
        r matches Err(e) ==> e.kind == ErrorKind::UnsafePath && e.detail@ == path_refusal_detail(path@),
{
    let path_chars = chars_vec(path);
    proof {
        reveal_strlit("\\\\");
    }
    let n = path.unicode_len();
    let absolute = n >= 3 && {
        let a = path_chars[0];
        let b = path_chars[1];
        let c = path_chars[2];
        (('a' <= a && a <= 'z') || ('A' <= a && a <= 'Z')) && b == ':' && (c == '\\' || c == '/')
    };
    if !absolute || starts_with(path, "\\\\") || contains_char(path, '\0') {
        return Err(Error::new(ErrorKind::UnsafePath, "Only absolute local drive paths are supported".to_string()));
    }
    let rest = path.substring_char(3, n);
    assert(rest@ =~= path@.skip(3));
    let pieces = split_any_exec(rest, "\\/");
    assert(raw_components(path@).skip(0) =~= raw_components(path@));
    let mut i: usize = 0;
    while i < pieces.len()
        invariant
            path_chars@ == path@,
            path_refusal_detail(path@) == component_refusal(raw_components(path@)),
            component_refusal(raw_components(path@)) == component_refusal(raw_components(path@).skip(i as int)),
            views(pieces@) == raw_components(path@),
            i <= pieces@.len(),
            forall|j: int| 0 <= j < i ==> piece_ok(#[trigger] raw_components(path@)[j]),
        decreases pieces@.len() - i,
    {
        let piece = pieces[i];
        assert(raw_components(path@)[i as int] == piece@);
        assert(raw_components(path@).skip(i as int)[0] == piece@);
        assert(raw_components(path@).skip(i as int).drop_first() =~= raw_components(path@).skip(i + 1));
        if !component_ok(piece) {
            proof {
                reveal_strlit("..");
            }
            if str_eq(piece, "..") {
                return Err(Error::new(ErrorKind::UnsafePath, "Relative path component".to_string()));
            }
            return Err(Error::new(ErrorKind::UnsafePath, "Ambiguous Windows path component".to_string()));
        }
        i = i + 1;
    }
    Ok(())
}

/// `FILE_ATTRIBUTE_REPARSE_POINT`.
pub const FILE_ATTRIBUTE_REPARSE_POINT: u32 = 0x400;
/// `FILE_ATTRIBUTE_DIRECTORY`.
pub const FILE_ATTRIBUTE_DIRECTORY: u32 = 0x10;

/// What a handle reports of the object it was opened on: its attribute bits
/// and its hard-link count.
#[derive(Debug, Clone, Copy)]
pub struct HandleFacts {
    pub attributes: u32,
    pub links: u32,
}

/// An opened object is acceptable when it is no reparse point, is a
/// directory exactly when one is expected, and (a file) has one link.
pub open spec fn handle_ok(f: HandleFacts, directory: bool) -> bool {
    &&& f.attributes & FILE_ATTRIBUTE_REPARSE_POINT == 0
    &&& (f.attributes & FILE_ATTRIBUTE_DIRECTORY != 0) == directory
    &&& (directory || f.links == 1)
}

/// Refuses a reparse point, a hard-linked file or an object of the wrong type.
pub fn check_handle(f: HandleFacts, directory: bool) -> (r: Result<(), Error>)
    ensures
        r is Ok <==> handle_ok(f, directory),
        r matches Err(e) ==> e.kind == ErrorKind::UnsafePath
            && e.detail@ == "Reparse point, hard link or unexpected file type"@,
{
    if f.attributes & FILE_ATTRIBUTE_REPARSE_POINT != 0
        || (f.attributes & FILE_ATTRIBUTE_DIRECTORY != 0) != directory
        || (!directory && f.links != 1)
    {
        return Err(Error::new(ErrorKind::UnsafePath, "Reparse point, hard link or unexpected file type".to_string()));
    }
    Ok(())
}

/// What opening one ancestor of a path (root first, the path itself left
/// out) gave: its handle's facts, nothing (it does not exist yet, so neither
/// do the deeper ones), or a failure described as `<ancestor>: <error>`.
#[derive(Debug, Clone)]
pub enum Ancestor {
    Opened(HandleFacts),
    NotFound,
    Failed(String),
}

/// The refusal of the first ancestor that may not be pinned.
pub open spec fn ancestors_refusal(a: Seq<Ancestor>) -> Option<Seq<char>>
    decreases a.len(),
{
    if a.len() == 0 {
        None
    } else {
        match a[0] {
            Ancestor::Opened(f) => if handle_ok(f, true) {
                ancestors_refusal(a.drop_first())
            } else {
                Some("Reparse point, hard link or unexpected file type"@)
            },
            Ancestor::NotFound => None,
            Ancestor::Failed(d) => Some("Cannot pin "@ + d@),
        }
    }
}

/// Why a path may not be worked on: its syntax, or one of its existing
/// ancestors.
pub open spec fn pin_refusal(path: Seq<char>, a: Seq<Ancestor>) -> Option<Seq<char>> {
    if !path_syntax_ok(path) {
        Some(path_refusal_detail(path))
    } else {
        ancestors_refusal(a)
    }
}

/// A path is pinned when its syntax is safe and every existing ancestor is a
/// plain directory: no reparse point may redirect the work elsewhere.
pub fn pin_parents(path: &str, ancestors: &Vec<Ancestor>) -> (r: Result<(), Error>)
    ensures
        match pin_refusal(path@, ancestors@) {
            None => r is Ok,
            Some(d) => r matches Err(e) && e.kind == ErrorKind::UnsafePath && e.detail@ == d,
        },
{
    safe_syntax(path)?;
    let mut i: usize = 0;
    assert(ancestors@.skip(0) =~= ancestors@);
    while i < ancestors.len()
        invariant
            i <= ancestors@.len(),
            path_syntax_ok(path@),
            ancestors_refusal(ancestors@) == ancestors_refusal(ancestors@.skip(i as int)),
        decreases ancestors.len() - i,
    {
        assert(ancestors@.skip(i as int)[0] == ancestors@[i as int]);
        assert(ancestors@.skip(i as int).drop_first() =~= ancestors@.skip(i + 1));
        match &ancestors[i] {
            Ancestor::Opened(f) => {
                check_handle(*f, true)?;
            },
            Ancestor::NotFound => {
                return Ok(());
            },
            Ancestor::Failed(d) => {
                return Err(Error::new(ErrorKind::UnsafePath, concat2("Cannot pin ", d.as_str())));
            },
        }
        i = i + 1;
    }
    Ok(())
}

/// The one canonical root pair for this product on this Windows user.
#[derive(Debug, Clone)]
pub struct CanonicalRoots {
    pub install: String,
    pub data: String,
}

/// `<LocalAppData>\Programs\desktop-todo-widget`.
pub open spec fn install_root_of(local_app_data: Seq<char>) -> Seq<char> {
    join_spec(join_spec(local_app_data, "Programs"@), "desktop-todo-widget"@)
}

/// `<RoamingAppData>\<APP_ID>`.
pub open spec fn data_root_of(roaming_app_data: Seq<char>) -> Seq<char> {
    join_spec(roaming_app_data, APP_ID@)
}

/// Derives the canonical roots from the two per-user Known Folders; nothing
/// else (receipt, command line, environment) can assign them.
pub fn canonical_roots(local_app_data: &str, roaming_app_data: &str) -> (r: CanonicalRoots)
    ensures
        r.install@ == install_root_of(local_app_data@),
        r.data@ == data_root_of(roaming_app_data@),
{
    let programs = join(local_app_data, "Programs");
    let install = join(programs.as_str(), "desktop-todo-widget");
    let data = join(roaming_app_data, APP_ID);
    CanonicalRoots { install, data }
}

/// The persistent data root derived from the roaming Known Folder.
pub fn canonical_data_root(roaming_app_data: &str) -> (r: String)
    ensures
        r@ == data_root_of(roaming_app_data@),
{
    canonical_roots("", roaming_app_data).data
}

/// The roots one maintenance operation works on, with what opening each
/// root's existing ancestors gave. Fields are private: only the Known Folder
/// derivation or the QA sandbox can set the roots, and only a survey of the
/// file system (`with_ancestors`) their ancestors.
#[derive(Debug, Clone)]
pub struct Paths {
    install: String,
    data: String,
    state: String,
    shortcut: String,
    registry: String,
    qa: bool,
    install_ancestors: Vec<Ancestor>,
    data_ancestors: Vec<Ancestor>,
    state_ancestors: Vec<Ancestor>,
    shortcut_ancestors: Vec<Ancestor>,
}

impl Paths {
    pub closed spec fn install_view(&self) -> Seq<char> {
        self.install@
    }

    pub closed spec fn data_view(&self) -> Seq<char> {
        self.data@
    }

    pub closed spec fn state_view(&self) -> Seq<char> {
        self.state@
    }

    pub closed spec fn shortcut_view(&self) -> Seq<char> {
        self.shortcut@
    }

    pub closed spec fn registry_view(&self) -> Seq<char> {
        self.registry@
    }

    pub closed spec fn qa_flag(&self) -> bool {
        self.qa
    }

    pub closed spec fn install_ancestors_view(&self) -> Seq<Ancestor> {
        self.install_ancestors@
    }

    pub closed spec fn data_ancestors_view(&self) -> Seq<Ancestor> {
        self.data_ancestors@
    }

    pub closed spec fn state_ancestors_view(&self) -> Seq<Ancestor> {
        self.state_ancestors@
    }

    pub closed spec fn shortcut_ancestors_view(&self) -> Seq<Ancestor> {
        self.shortcut_ancestors@
    }

    /// No ancestor of any root has been surveyed yet.
    pub open spec fn unsurveyed(&self) -> bool {
        &&& self.install_ancestors_view().len() == 0
        &&& self.data_ancestors_view().len() == 0
        &&& self.state_ancestors_view().len() == 0
        &&& self.shortcut_ancestors_view().len() == 0
    }

    /// The production roots, from the Local, Roaming and Programs Known Folders.
    pub fn from_known_folders(local_app_data: &str, roaming_app_data: &str, programs: &str) -> (p: Self)
        ensures
            p.install_view() == install_root_of(local_app_data@),
            p.data_view() == data_root_of(roaming_app_data@),
            p.state_view() == join_spec(join_spec(local_app_data@, APP_ID@), "maintenance"@),
            p.shortcut_view() == join_spec(programs@, "desktop-todo-widget.lnk"@),
            p.registry_view() == "Software\\Microsoft\\Windows\\CurrentVersion\\Uninstall\\"@ + APP_ID@,
            !p.qa_flag(),
            p.unsurveyed(),
    {
        let roots = canonical_roots(local_app_data, roaming_app_data);
        let app_state = join(local_app_data, APP_ID);
        let state = join(app_state.as_str(), "maintenance");
        let shortcut = join(programs, "desktop-todo-widget.lnk");
        let registry = concat2("Software\\Microsoft\\Windows\\CurrentVersion\\Uninstall\\", APP_ID);
        Paths {
            install: roots.install,
            data: roots.data,
            state,
            shortcut,
            registry,
            qa: false,
            install_ancestors: Vec::new(),
            data_ancestors: Vec::new(),
            state_ancestors: Vec::new(),
            shortcut_ancestors: Vec::new(),
        }
    }

    /// An isolated QA layout under `root`, registered under a QA-only key.
    pub fn sandbox(root: &str, id: &str) -> (p: Self)
        ensures
            p.install_view() == join_spec(root@, "install"@),
            p.data_view() == join_spec(root@, "data"@),
            p.state_view() == join_spec(root@, "maintenance"@),
            p.shortcut_view() == join_spec(join_spec(root@, "menu"@), "desktop-todo-widget.lnk"@),
            p.registry_view() == "Software\\desktop-todo-maintenance-qa\\"@ + id@,
            p.qa_flag(),
            p.unsurveyed(),
    {
        let install = join(root, "install");
        let data = join(root, "data");
        let state = join(root, "maintenance");
        let menu = join(root, "menu");
        let shortcut = join(menu.as_str(), "desktop-todo-widget.lnk");
        let registry = concat2("Software\\desktop-todo-maintenance-qa\\", id);
        Paths {
            install,
            data,
            state,
            shortcut,
            registry,
            qa: true,
            install_ancestors: Vec::new(),
            data_ancestors: Vec::new(),
            state_ancestors: Vec::new(),
            shortcut_ancestors: Vec::new(),
        }
    }

    /// The same roots, with what opening each root's ancestors gave (root
    /// first, the root itself left out), as a survey of the file system found.
    pub fn with_ancestors(
        self,
        install: Vec<Ancestor>,
        data: Vec<Ancestor>,
        state: Vec<Ancestor>,
        shortcut: Vec<Ancestor>,
    ) -> (p: Self)
        ensures
            p.install_view() == self.install_view(),
            p.data_view() == self.data_view(),
            p.state_view() == self.state_view(),
            p.shortcut_view() == self.shortcut_view(),
            p.registry_view() == self.registry_view(),
            p.qa_flag() == self.qa_flag(),
            p.install_ancestors_view() == install@,
            p.data_ancestors_view() == data@,
            p.state_ancestors_view() == state@,
            p.shortcut_ancestors_view() == shortcut@,
    {
        Paths {
            install_ancestors: install,
            data_ancestors: data,
            state_ancestors: state,
            shortcut_ancestors: shortcut,
            ..self
        }
    }

    pub fn install(&self) -> (r: &str)
        ensures
            r@ == self.install_view(),
    {
        self.install.as_str()
    }

    pub fn data(&self) -> (r: &str)
        ensures
            r@ == self.data_view(),
    {
        self.data.as_str()
    }

    pub fn state(&self) -> (r: &str)
        ensures
            r@ == self.state_view(),
    {
        self.state.as_str()
    }

    pub fn shortcut(&self) -> (r: &str)
        ensures
            r@ == self.shortcut_view(),
    {
        self.shortcut.as_str()
    }

    pub fn registry(&self) -> (r: &str)
        ensures
            r@ == self.registry_view(),
    {
        self.registry.as_str()
    }

    pub fn is_qa(&self) -> (r: bool)
        ensures
            r == self.qa_flag(),
    {
        self.qa
    }

    /// The receipt lives in the installation root.
    pub fn receipt(&self) -> (r: String)
        ensures
            r@ == join_spec(self.install_view(), "installation-receipt.json"@),
    {
        join(self.install.as_str(), "installation-receipt.json")
    }

    /// All four roots satisfy the path policy and may be pinned: no existing
    /// ancestor of one is a reparse point, a hard link or not a directory.
    pub open spec fn roots_valid(&self) -> bool {
        self.pin_refusal_of(
            self.install_ancestors_view(),
            self.data_ancestors_view(),
            self.state_ancestors_view(),
            self.shortcut_ancestors_view(),
        ) is None
    }

    /// The refusal of the first root, in the order install, data, state,
    /// shortcut, that may not be worked on.
    pub open spec fn roots_refusal(&self) -> Seq<char> {
        match self.pin_refusal_of(
            self.install_ancestors_view(),
            self.data_ancestors_view(),
            self.state_ancestors_view(),
            self.shortcut_ancestors_view(),
        ) {
            Some(d) => d,
            None => Seq::empty(),
        }
    }

    /// The refusal of the first root, in the order install, data, state,
    /// shortcut, that may not be pinned, given what opening each root's
    /// ancestors gave.
    pub open spec fn pin_refusal_of(&self, install: Seq<Ancestor>, data: Seq<Ancestor>, state: Seq<Ancestor>, shortcut: Seq<Ancestor>) -> Option<Seq<char>> {
        match pin_refusal(self.install_view(), install) {
            Some(d) => Some(d),
            None => match pin_refusal(self.data_view(), data) {
                Some(d) => Some(d),
                None => match pin_refusal(self.state_view(), state) {
                    Some(d) => Some(d),
                    None => pin_refusal(self.shortcut_view(), shortcut),
                },
            },
        }
    }

    /// Validates every root as the helper works on it: its syntax and every
    /// existing ancestor (no reparse point, hard link or wrong type), install
    /// root first. Creates, removes and changes nothing.
    pub fn validate(&self) -> (r: Result<(), Error>)
        ensures
            r is Ok <==> self.roots_valid(),
            r matches Err(e) ==> e.kind == ErrorKind::UnsafePath && e.detail@ == self.roots_refusal(),
    {
        pin_parents(self.install.as_str(), &self.install_ancestors)?;
        pin_parents(self.data.as_str(), &self.data_ancestors)?;
        pin_parents(self.state.as_str(), &self.state_ancestors)?;
        pin_parents(self.shortcut.as_str(), &self.shortcut_ancestors)?;
        Ok(())
    }
}

} // verus!
