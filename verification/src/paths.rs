use vstd::prelude::*;
use std::path::PathBuf;
use crate::text::ends_with;

verus! {

/// A single path component with no separator, drive or parent step in it.
pub open spec fn is_plain_component(s: Seq<char>) -> bool {
    &&& s.len() > 0
    &&& s != "."@
    &&& s != ".."@
    &&& !s.contains('/')
    &&& !s.contains('\\')
    &&& !s.contains(':')
}

/// The current user's home directory, as `dirs_next::home_dir` finds it
/// (from the environment and the user database), converted to text; `None`
/// when it cannot be found. Nothing is claimed of the path itself: it depends
/// on the machine and the environment.
#[verifier::external_body]
pub(crate) fn home_dir() -> (r: Option<String>) {
    match dirs_next::home_dir() {
        Some(p) => Some(p.to_string_lossy().into_owned()),
        None => None,
    }
}

/// A path separator on one platform or another.
pub open spec fn is_separator(c: char) -> bool {
    c == '/' || c == '\\'
}

/// A path after which `PathBuf::push` may add no separator: empty, ending in
/// a separator, or ending in a drive's colon.
pub open spec fn ends_at_boundary(base: Seq<char>) -> bool {
    base.len() == 0 || is_separator(base.last()) || base.last() == ':'
}

/// A path that starts with `\\?`, as Windows verbatim paths (`\\?\`) do.
pub open spec fn starts_verbatim(p: Seq<char>) -> bool {
    p.len() >= 3 && p[0] == '\\' && p[1] == '\\' && p[2] == '?'
}

/// `component` appended to `base`: after a separator, or directly where
/// `base` already ends at a boundary.
pub open spec fn appended(base: Seq<char>, component: Seq<char>, r: Seq<char>) -> bool {
    ||| r == base + seq!['/'] + component
    ||| r == base + seq!['\\'] + component
    ||| ends_at_boundary(base) && r == base + component
}

/// `PathBuf::push` of a plain component onto a path held as text. Its
/// documentation says that push extends the path, and that a relative path
/// is appended with a separator where one is needed (none after a separator
/// or a drive such as `C:`); only a base with a verbatim prefix is rebuilt
/// (its `.` and `..` steps removed), which keeps the prefix. Which separator
/// is used depends on the platform, so the contract allows either. The
/// layout of a rebuilt verbatim path is left unsaid beyond its prefix and
/// its last component.
#[verifier::external_body]
fn push_component(base: &str, component: &str) -> (r: String)
    requires
        is_plain_component(component@),
    ensures
        ends_with(r@, component@),
        !starts_verbatim(base@) ==> appended(base@, component@, r@),
        starts_verbatim(base@) ==> starts_verbatim(r@),
{
    let mut p = PathBuf::from(base);
    p.push(component);
    p.to_string_lossy().into_owned()
}

/// `home`, a separator unless `home` already ends at one (or at a drive's
/// colon), `ALCOM`, a separator and `leaf`.
pub open spec fn alcom_layout(home: Seq<char>, leaf: Seq<char>, r: Seq<char>) -> bool {
    exists|gap: Seq<char>, sep: char|
        {
            &&& (gap == seq!['/'] || gap == seq!['\\'] || (gap.len() == 0 && ends_at_boundary(home)))
            &&& is_separator(sep)
            &&& r == home + gap + "ALCOM"@ + seq![sep] + leaf
        }
}

/// The folder `leaf` of the `ALCOM` folder in `home`: laid out as
/// `alcom_layout` says, or, for a Windows verbatim `home`, a verbatim path
/// ending with `leaf`.
pub open spec fn alcom_folder(home: Seq<char>, leaf: Seq<char>, r: Seq<char>) -> bool {
    &&& ends_with(r, leaf)
    &&& !starts_verbatim(home) ==> alcom_layout(home, leaf, r)
    &&& starts_verbatim(home) ==> starts_verbatim(r)
}

/// A folder named `leaf` in the `ALCOM` folder of `home`: `home/ALCOM/leaf`.
pub fn alcom_path(home: &str, leaf: &str) -> (r: String)
    requires
        is_plain_component(leaf@),
    ensures
        alcom_folder(home@, leaf@, r@),
{
    proof {
        reveal_strlit("ALCOM");
        reveal_strlit(".");
        reveal_strlit("..");
        assert("ALCOM"@.len() != "."@.len());
        assert("ALCOM"@.len() != ".."@.len());
        assert(!"ALCOM"@.contains('/'));
        assert(!"ALCOM"@.contains('\\'));
        assert(!"ALCOM"@.contains(':'));
    }
    let alcom = push_component(home, "ALCOM");
    let r = push_component(alcom.as_str(), leaf);
    proof {
        let h = home@;
        let m = alcom@;
        let a = "ALCOM"@;
        if !starts_verbatim(h) {
            let gap: Seq<char> = if m == h + seq!['/'] + a {
                seq!['/']
            } else if m == h + seq!['\\'] + a {
                seq!['\\']
            } else {
                Seq::empty()
            };
            assert(m == h + gap + a);
            assert(m.len() == h.len() + gap.len() + 5);
            if h.len() < 3 {
                if h.len() + gap.len() <= 2 {
                    assert(m[2] == a[2 - h.len() - gap.len()]);
                } else {
                    assert(h.len() == 2 && gap.len() == 1);
                    assert(m[2] == gap[0]);
                }
            } else {
                assert(m[0] == h[0] && m[1] == h[1] && m[2] == h[2]);
            }
            assert(!starts_verbatim(m));
            assert(m.last() == 'M');
            assert(!ends_at_boundary(m));
            let sep: char = if r@ == m + seq!['/'] + leaf@ {
                '/'
            } else {
                '\\'
            };
            assert(r@ == m + seq![sep] + leaf@);
            assert(r@ =~= h + gap + a + seq![sep] + leaf@);
            assert(alcom_layout(h, leaf@, r@));
        }
    }
    r
}

proof fn lemma_leaf_names_are_plain()
    ensures
        is_plain_component("Backups"@),
        is_plain_component("Projects"@),
{
    reveal_strlit("Backups");
    reveal_strlit("Projects");
    reveal_strlit(".");
    reveal_strlit("..");
    assert("Backups"@.len() != "."@.len());
    assert("Backups"@.len() != ".."@.len());
    assert("Projects"@.len() != "."@.len());
    assert("Projects"@.len() != ".."@.len());
    assert(!"Backups"@.contains('/'));
    assert(!"Backups"@.contains('\\'));
    assert(!"Backups"@.contains(':'));
    assert(!"Projects"@.contains('/'));
    assert(!"Projects"@.contains('\\'));
    assert(!"Projects"@.contains(':'));
}

/// `r` is the folder `leaf` of the `ALCOM` folder of some home directory.
pub open spec fn in_some_alcom_folder(leaf: Seq<char>, r: Seq<char>) -> bool {
    exists|home: Seq<char>| #[trigger] alcom_folder(home, leaf, r)
}

/// Outside a Windows verbatim path, a folder of the `ALCOM` folder ends with
/// `ALCOM`, a separator and the folder's name.
pub proof fn lemma_alcom_folder_ends_with_alcom(home: Seq<char>, leaf: Seq<char>, r: Seq<char>)
    requires
        alcom_folder(home, leaf, r),
    ensures
        ends_with(r, leaf),
        !starts_verbatim(r) ==> exists|sep: char|
            is_separator(sep) && ends_with(r, "ALCOM"@ + seq![sep] + leaf),
{
    if !starts_verbatim(r) {
        assert(!starts_verbatim(home));
        let (gap, sep) = choose|gap: Seq<char>, sep: char|
            {
                &&& (gap == seq!['/'] || gap == seq!['\\'] || (gap.len() == 0 && ends_at_boundary(home)))
                &&& is_separator(sep)
                &&& r == home + gap + "ALCOM"@ + seq![sep] + leaf
            };
        let tail = "ALCOM"@ + seq![sep] + leaf;
        assert(r =~= (home + gap) + tail);
        assert(r.subrange(r.len() - tail.len(), r.len() as int) =~= tail);
        assert(ends_with(r, tail));
    }
}

/// The default folder `leaf` for the given home directory: none without a
/// home, else the folder `leaf` of the `ALCOM` folder in it.
pub open spec fn default_folder_for(home: Option<Seq<char>>, leaf: Seq<char>, r: Option<String>) -> bool {
    match home {
        None => r is None,
        Some(h) => r matches Some(p) && alcom_folder(h, leaf, p@),
    }
}

pub open spec fn opt_view(o: Option<&str>) -> Option<Seq<char>> {
    match o {
        Some(s) => Some(s@),
        None => None,
    }
}

/// The default folder for project backups for the given home directory:
/// `home/ALCOM/Backups`, or none without a home.
pub fn default_backup_path_for(home: Option<&str>) -> (r: Option<String>)
    ensures
        default_folder_for(opt_view(home), "Backups"@, r),
{
    proof {
        lemma_leaf_names_are_plain();
    }
    match home {
        Some(h) => Some(alcom_path(h, "Backups")),
        None => None,
    }
}

/// The default folder for new projects for the given home directory:
/// `home/ALCOM/Projects`, or none without a home.
pub fn default_default_project_path_for(home: Option<&str>) -> (r: Option<String>)
    ensures
        default_folder_for(opt_view(home), "Projects"@, r),
{
    proof {
        lemma_leaf_names_are_plain();
    }
    match home {
        Some(h) => Some(alcom_path(h, "Projects")),
        None => None,
    }
}

/// The default folder for project backups, `ALCOM/Backups` in the home
/// directory; `None` when the home directory cannot be found.
pub fn default_backup_path() -> (r: Option<String>)
    ensures
        r matches Some(p) ==> in_some_alcom_folder("Backups"@, p@),
        r matches Some(p) ==> ends_with(p@, "Backups"@),
        r matches Some(p) ==> !starts_verbatim(p@) ==> exists|sep: char|
            is_separator(sep) && ends_with(p@, "ALCOM"@ + seq![sep] + "Backups"@),
{
    proof {
        lemma_leaf_names_are_plain();
    }
    let home = home_dir();
    let r = match &home {
        Some(h) => default_backup_path_for(Some(h.as_str())),
        None => default_backup_path_for(None),
    };
    proof {
        if r is Some {
            let h = home->0@;
            let p = r->0@;
            assert(alcom_folder(h, "Backups"@, p));
            assert(in_some_alcom_folder("Backups"@, p));
            lemma_alcom_folder_ends_with_alcom(h, "Backups"@, p);
        }
    }
    r
}

/// The default folder for new projects, `ALCOM/Projects` in the home
/// directory; `None` when the home directory cannot be found.
pub fn default_default_project_path() -> (r: Option<String>)
    ensures
        r matches Some(p) ==> in_some_alcom_folder("Projects"@, p@),
        r matches Some(p) ==> ends_with(p@, "Projects"@),
        r matches Some(p) ==> !starts_verbatim(p@) ==> exists|sep: char|
            is_separator(sep) && ends_with(p@, "ALCOM"@ + seq![sep] + "Projects"@),
{
    proof {
        lemma_leaf_names_are_plain();
    }
    let home = home_dir();
    let r = match &home {
        Some(h) => default_default_project_path_for(Some(h.as_str())),
        None => default_default_project_path_for(None),
    };
    proof {
        if r is Some {
            let h = home->0@;
            let p = r->0@;
            assert(alcom_folder(h, "Projects"@, p));
            assert(in_some_alcom_folder("Projects"@, p));
            lemma_alcom_folder_ends_with_alcom(h, "Projects"@, p);
        }
    }
    r
}

/// The folder settings of the application, and whether they changed since
/// they were last saved.
pub struct GuiSettings {
    project_backup_path: Option<String>,
    default_project_path: Option<String>,
    save_required: bool,
}

impl GuiSettings {
    pub closed spec fn backup(self) -> Option<Seq<char>> {
        match self.project_backup_path {
            Some(p) => Some(p@),
            None => None,
        }
    }

    pub closed spec fn projects(self) -> Option<Seq<char>> {
        match self.default_project_path {
            Some(p) => Some(p@),
            None => None,
        }
    }

    pub closed spec fn needs_save(self) -> bool {
        self.save_required
    }

    /// Settings as they were loaded: nothing to save yet.
    pub fn new(project_backup_path: Option<String>, default_project_path: Option<String>) -> (r: Self)
        ensures
            r.backup() == (match project_backup_path {
                Some(p) => Some(p@),
                None => None::<Seq<char>>,
            }),
            r.projects() == (match default_project_path {
                Some(p) => Some(p@),
                None => None::<Seq<char>>,
            }),
            !r.needs_save(),
    {
        GuiSettings { project_backup_path, default_project_path, save_required: false }
    }

    /// The folder for project backups, if one is set.
    pub fn project_backup_path(&self) -> (r: Option<&str>)
        ensures
            r matches Some(p) ==> self.backup() == Some(p@),
            r is None ==> self.backup() is None,
    {
        match &self.project_backup_path {
            Some(p) => Some(p.as_str()),
            None => None,
        }
    }

    /// Sets the folder for project backups.
    pub fn set_project_backup_path(&mut self, path: &str)
        ensures
            final(self).backup() == Some(path@),
            final(self).projects() == old(self).projects(),
            final(self).needs_save() == old(self).needs_save(),
    {
        self.project_backup_path = Some(String::from_str(path));
    }

    /// The default folder for new projects, if one is set.
    pub fn default_project_path(&self) -> (r: Option<&str>)
        ensures
            r matches Some(p) ==> self.projects() == Some(p@),
            r is None ==> self.projects() is None,
    {
        match &self.default_project_path {
            Some(p) => Some(p.as_str()),
            None => None,
        }
    }

    /// Sets the default folder for new projects.
    pub fn set_default_project_path(&mut self, path: &str)
        ensures
            final(self).projects() == Some(path@),
            final(self).backup() == old(self).backup(),
            final(self).needs_save() == old(self).needs_save(),
    {
        self.default_project_path = Some(String::from_str(path));
    }

    /// Marks the settings as changed.
    pub fn require_save(&mut self)
        ensures
            final(self).needs_save(),
            final(self).backup() == old(self).backup(),
            final(self).projects() == old(self).projects(),
    {
        self.save_required = true;
    }

    /// Whether the settings changed since they were loaded.
    pub fn save_required(&self) -> (r: bool)
        ensures
            r == self.needs_save(),
    {
        self.save_required
    }
}

/// What `project_backup_path` does: hands out the folder that is set, changing
/// nothing; or, when none is set, sets the default one and marks the settings
/// as changed, or changes nothing and hands out nothing when there is no
/// default.
pub open spec fn backup_path_outcome(before: GuiSettings, after: GuiSettings, r: Option<String>) -> bool {
    match before.backup() {
        Some(p) => r matches Some(q) && q@ == p && after == before,
        None => match r {
            None => after == before,
            Some(q) => {
                &&& after.backup() == Some(q@)
                &&& in_some_alcom_folder("Backups"@, q@)
                &&& ends_with(q@, "Backups"@)
                &&& after.needs_save()
                &&& after.projects() == before.projects()
            },
        },
    }
}

/// What `default_project_path` does, as `backup_path_outcome` for the folder
/// of new projects.
pub open spec fn project_path_outcome(before: GuiSettings, after: GuiSettings, r: Option<String>) -> bool {
    match before.projects() {
        Some(p) => r matches Some(q) && q@ == p && after == before,
        None => match r {
            None => after == before,
            Some(q) => {
                &&& after.projects() == Some(q@)
                &&& in_some_alcom_folder("Projects"@, q@)
                &&& ends_with(q@, "Projects"@)
                &&& after.needs_save()
                &&& after.backup() == before.backup()
            },
        },
    }
}

/// Once `project_backup_path` has handed out a folder, the next call hands out
/// the same folder and changes nothing.
pub proof fn lemma_backup_path_is_settled(
    s0: GuiSettings,
    s1: GuiSettings,
    r1: Option<String>,
    s2: GuiSettings,
    r2: Option<String>,
)
    requires
        backup_path_outcome(s0, s1, r1),
        r1 is Some,
        backup_path_outcome(s1, s2, r2),
    ensures
        r2 matches Some(q) && q@ == r1->0@,
        s2 == s1,
{
}

/// Once `default_project_path` has handed out a folder, the next call hands
/// out the same folder and changes nothing.
pub proof fn lemma_project_path_is_settled(
    s0: GuiSettings,
    s1: GuiSettings,
    r1: Option<String>,
    s2: GuiSettings,
    r2: Option<String>,
)
    requires
        project_path_outcome(s0, s1, r1),
        r1 is Some,
        project_path_outcome(s1, s2, r2),
    ensures
        r2 matches Some(q) && q@ == r1->0@,
        s2 == s1,
{
}

/// What `settle_backup_path` does with the default folder it is given: hands
/// out the folder that is set, changing nothing; or, when none is set, sets
/// the default, marks the settings as changed and hands the default out; or,
/// with no default either, changes nothing and hands out nothing.
pub open spec fn backup_path_settled(
    before: GuiSettings,
    after: GuiSettings,
    default: Option<Seq<char>>,
    r: Option<String>,
) -> bool {
    match before.backup() {
        Some(p) => r matches Some(q) && q@ == p && after == before,
        None => match default {
            None => r is None && after == before,
            Some(d) => {
                &&& r matches Some(q) && q@ == d
                &&& after.backup() == Some(d)
                &&& after.needs_save()
                &&& after.projects() == before.projects()
            },
        },
    }
}

/// What `settle_default_project_path` does, as `backup_path_settled` for the
/// folder of new projects.
pub open spec fn project_path_settled(
    before: GuiSettings,
    after: GuiSettings,
    default: Option<Seq<char>>,
    r: Option<String>,
) -> bool {
    match before.projects() {
        Some(p) => r matches Some(q) && q@ == p && after == before,
        None => match default {
            None => r is None && after == before,
            Some(d) => {
                &&& r matches Some(q) && q@ == d
                &&& after.projects() == Some(d)
                &&& after.needs_save()
                &&& after.backup() == before.backup()
            },
        },
    }
}

pub open spec fn opt_string_view(o: Option<String>) -> Option<Seq<char>> {
    match o {
        Some(s) => Some(s@),
        None => None,
    }
}

/// The folder for project backups: the one set, or else `default`, which is
/// then set and marks the settings as changed; nothing when neither is there.
pub fn settle_backup_path(settings: &mut GuiSettings, default: Option<String>) -> (r: Option<String>)
    ensures
        backup_path_settled(*old(settings), *final(settings), opt_string_view(default), r),
{
    match settings.project_backup_path() {
        Some(p) => {
            return Some(String::from_str(p));
        },
        None => {},
    }
    match default {
        Some(default) => {
            settings.set_project_backup_path(default.as_str());
            settings.require_save();
            Some(default)
        },
        None => None,
    }
}

/// The default folder for new projects: the one set, or else `default`,
/// which is then set and marks the settings as changed; nothing when neither
/// is there.
pub fn settle_default_project_path(settings: &mut GuiSettings, default: Option<String>) -> (r: Option<String>)
    ensures
        project_path_settled(*old(settings), *final(settings), opt_string_view(default), r),
{
    match settings.default_project_path() {
        Some(p) => {
            return Some(String::from_str(p));
        },
        None => {},
    }
    match default {
        Some(default) => {
            settings.set_default_project_path(default.as_str());
            settings.require_save();
            Some(default)
        },
        None => None,
    }
}

/// The folder for project backups: the one set, or else the default one,
/// which is then set and marks the settings as changed. `None`, with nothing
/// changed, when none is set and the home directory cannot be found. The
/// home directory is looked up only when no folder is set.
pub fn project_backup_path(settings: &mut GuiSettings) -> (r: Option<String>)
    ensures
        backup_path_outcome(*old(settings), *final(settings), r),
{
    if settings.project_backup_path().is_some() {
        return settle_backup_path(settings, None);
    }
    let default = default_backup_path();
    settle_backup_path(settings, default)
}

/// The default folder for new projects: the one set, or else the default
/// one, which is then set and marks the settings as changed. `None`, with
/// nothing changed, when none is set and the home directory cannot be found.
/// The home directory is looked up only when no folder is set.
pub fn default_project_path(settings: &mut GuiSettings) -> (r: Option<String>)
    ensures
        project_path_outcome(*old(settings), *final(settings), r),
{
    if settings.default_project_path().is_some() {
        return settle_default_project_path(settings, None);
    }
    let default = default_default_project_path();
    settle_default_project_path(settings, default)
}

} // verus!

verus! {

/// The extension that adding `extension` to a file sets: the file's current
/// extension, a dot and `extension`, or just `extension` when the file has
/// none (`a.tar` with `gz` becomes `a.tar.gz`, `a` becomes `a.gz`).
pub open spec fn spec_added_extension(current: Option<Seq<char>>, extension: Seq<char>) -> Seq<char> {
    match current {
        Some(e) => e + "."@ + extension,
        None => extension,
    }
}

/// Adding an extension keeps the whole current extension, whatever its
/// length or content, and puts a dot and the added extension after it; a
/// file with no extension gets just the added one.
pub proof fn lemma_added_extension_keeps_current()
    ensures
        forall|e: Seq<char>, x: Seq<char>| #[trigger] spec_added_extension(Some(e), x) == e + seq!['.'] + x,
        forall|e: Seq<char>, x: Seq<char>|
            #![trigger spec_added_extension(Some(e), x)]
            {
                let r = spec_added_extension(Some(e), x);
                &&& r.len() == e.len() + 1 + x.len()
                &&& r.subrange(0, e.len() as int) == e
                &&& r[e.len() as int] == '.'
                &&& r.subrange(e.len() + 1int, r.len() as int) == x
            },
        forall|x: Seq<char>| #[trigger] spec_added_extension(None, x) == x,
{
    reveal_strlit(".");
    assert("."@ =~= seq!['.']);
    assert forall|e: Seq<char>, x: Seq<char>|
        #![trigger spec_added_extension(Some(e), x)]
        {
            let r = spec_added_extension(Some(e), x);
            &&& r.len() == e.len() + 1 + x.len()
            &&& r.subrange(0, e.len() as int) == e
            &&& r[e.len() as int] == '.'
            &&& r.subrange(e.len() + 1int, r.len() as int) == x
        } by {
        let r = spec_added_extension(Some(e), x);
        assert(r =~= e + seq!['.'] + x);
        assert(r.subrange(0, e.len() as int) =~= e);
        assert(r.subrange(e.len() + 1int, r.len() as int) =~= x);
    }
}

/// The extension to set on a file whose current extension is `current` when
/// `extension` is added to it.
pub fn added_extension(current: Option<&str>, extension: &str) -> (r: String)
    ensures
        r@ == spec_added_extension(
            match current {
                Some(e) => Some(e@),
                None => None,
            },
            extension@,
        ),
        current matches Some(e) ==> r@ == e@ + seq!['.'] + extension@,
        current is None ==> r@ == extension@,
{
    proof {
        lemma_added_extension_keeps_current();
    }
    match current {
        Some(e) => {
            let mut r = String::from_str(e);
            r.append(".");
            r.append(extension);
            r
        },
        None => String::from_str(extension),
    }
}

} // verus!
