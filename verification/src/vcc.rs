use vstd::prelude::*;
use crate::text::str_equals;
use vstd::set_lib::{lemma_int_range, lemma_len_subset, lemma_subset_equality, set_int_range};

verus! {

/// Experimental commands on the projects and Unity installations that the
/// VRChat Creator Companion knows.
pub enum Vcc {
    Project(Project),
    Unity(Unity),
}

/// Commands on the projects that the Creator Companion manages.
pub enum Project {
    List(ProjectList),
    Add(ProjectAdd),
    Remove(ProjectRemove),
}

/// Lists the projects.
pub struct ProjectList {}

/// Adds the project at a path to the projects that are managed.
pub struct ProjectAdd {
    path: String,
}

/// Removes the project at a path from the projects that are managed.
pub struct ProjectRemove {
    path: String,
}

/// Commands on the Unity installations that the Creator Companion knows.
pub enum Unity {
    List(UnityList),
    Add(UnityAdd),
    Remove(UnityRemove),
    Update(UnityUpdate),
}

/// Lists the registered Unity installations.
pub struct UnityList {}

/// Adds the Unity installation at a path to the list.
pub struct UnityAdd {
    path: String,
}

/// Removes the Unity installation at a path from the list.
pub struct UnityRemove {
    path: String,
}

/// Updates the list of Unity installations from the file system and Unity Hub:
/// installations no longer found are removed, those found by Unity Hub are added.
pub struct UnityUpdate {}

impl ProjectAdd {
    /// The path the command names.
    pub closed spec fn named_path(self) -> Seq<char> {
        self.path@
    }

    pub fn new(path: String) -> (r: Self)
        ensures
            r.named_path() == path@,
    {
        ProjectAdd { path }
    }

    /// The path of the project to add.
    pub fn path(&self) -> (r: &str)
        ensures
            r@ == self.named_path(),
    {
        self.path.as_str()
    }
}

impl ProjectRemove {
    /// The path the command names.
    pub closed spec fn named_path(self) -> Seq<char> {
        self.path@
    }

    pub fn new(path: String) -> (r: Self)
        ensures
            r.named_path() == path@,
    {
        ProjectRemove { path }
    }

    /// The path of the project to remove.
    pub fn path(&self) -> (r: &str)
        ensures
            r@ == self.named_path(),
    {
        self.path.as_str()
    }
}

impl UnityAdd {
    /// The path the command names.
    pub closed spec fn named_path(self) -> Seq<char> {
        self.path@
    }

    pub fn new(path: String) -> (r: Self)
        ensures
            r.named_path() == path@,
    {
        UnityAdd { path }
    }

    /// The path of the Unity installation to add.
    pub fn path(&self) -> (r: &str)
        ensures
            r@ == self.named_path(),
    {
        self.path.as_str()
    }
}

impl UnityRemove {
    /// The path the command names.
    pub closed spec fn named_path(self) -> Seq<char> {
        self.path@
    }

    pub fn new(path: String) -> (r: Self)
        ensures
            r.named_path() == path@,
    {
        UnityRemove { path }
    }

    /// The path of the Unity installation to remove.
    pub fn path(&self) -> (r: &str)
        ensures
            r@ == self.named_path(),
    {
        self.path.as_str()
    }
}

/// In a project listing, the project at index `a` comes before the one at
/// index `b`: it was modified later, or at the same time and it came first.
pub open spec fn listed_before(last_modified: Seq<i64>, a: int, b: int) -> bool {
    ||| last_modified[a] > last_modified[b]
    ||| last_modified[a] == last_modified[b] && a < b
}

/// `order` lists every project index once, latest modified first, projects
/// modified at the same time in the order they were given.
pub open spec fn is_listing_order(last_modified: Seq<i64>, order: Seq<usize>) -> bool {
    &&& order.len() == last_modified.len()
    &&& forall|i: int| 0 <= i < order.len() ==> #[trigger] order[i] < last_modified.len()
    &&& forall|i: int, j: int|
        0 <= i < j < order.len() ==> listed_before(last_modified, #[trigger] order[i] as int, #[trigger] order[j] as int)
}

/// The order in which projects are listed, given the time each was last
/// modified: the latest first, ties kept in the order they were given.
pub fn project_list_order(last_modified: &Vec<i64>) -> (order: Vec<usize>)
    ensures
        is_listing_order(last_modified@, order@),
{
    let n = last_modified.len();
    let mut order: Vec<usize> = Vec::new();
    let mut i: usize = 0;
    while i < n
        invariant
            n == last_modified@.len(),
            i <= n,
            order@.len() == i,
            forall|k: int| 0 <= k < order@.len() ==> #[trigger] order@[k] < i,
            forall|a: int, b: int|
                0 <= a < b < order@.len() ==> listed_before(last_modified@, #[trigger] order@[a] as int, #[trigger] order@[b] as int),
        decreases n - i,
    {
        let key = last_modified[i];
        let mut p: usize = 0;
        while p < order.len() && last_modified[order[p]] >= key
            invariant
                n == last_modified@.len(),
                i < n,
                key == last_modified@[i as int],
                p <= order@.len(),
                order@.len() == i,
                forall|k: int| 0 <= k < order@.len() ==> #[trigger] order@[k] < i,
                forall|k: int| 0 <= k < p ==> listed_before(last_modified@, #[trigger] order@[k] as int, i as int),
            decreases order@.len() - p,
        {
            p = p + 1;
        }
        let ghost before = order@;
        order.insert(p, i);
        proof {
            let s = order@;
            assert(s =~= before.insert(p as int, i));
            assert forall|k: int| 0 <= k < s.len() implies #[trigger] s[k] < i + 1 by {
                if k < p {
                    assert(s[k] == before[k]);
                } else if k > p {
                    assert(s[k] == before[k - 1]);
                }
            }
            assert forall|a: int, b: int|
                0 <= a < b < s.len() implies listed_before(last_modified@, #[trigger] s[a] as int, #[trigger] s[b] as int) by {
                if b < p {
                    assert(s[a] == before[a] && s[b] == before[b]);
                } else if b == p {
                    assert(s[a] == before[a]);
                } else if a < p {
                    assert(s[a] == before[a] && s[b] == before[b - 1]);
                } else if a == p {
                    assert(s[b] == before[b - 1]);
                    assert(p < before.len());
                    assert(last_modified@[before[p as int] as int] < key);
                    if b - 1 > p {
                        assert(listed_before(last_modified@, before[p as int] as int, before[b - 1] as int));
                    }
                } else {
                    assert(s[a] == before[a - 1] && s[b] == before[b - 1]);
                }
            }
        }
        i = i + 1;
    }
    order
}

/// A listing order names every project.
proof fn lemma_listing_names_every_project(last_modified: Seq<i64>, order: Seq<usize>, x: int)
    requires
        is_listing_order(last_modified, order),
        0 <= x < last_modified.len(),
    ensures
        exists|i: int| 0 <= i < order.len() && order[i] == x,
{
    let n = last_modified.len() as int;
    let s = order.map_values(|v: usize| v as int);
    assert forall|i: int, j: int| 0 <= i < s.len() && 0 <= j < s.len() && i != j implies s[i] != s[j] by {
        if i < j {
            assert(listed_before(last_modified, order[i] as int, order[j] as int));
        } else {
            assert(listed_before(last_modified, order[j] as int, order[i] as int));
        }
    }
    assert(s.no_duplicates());
    s.unique_seq_to_set();
    lemma_int_range(0, n);
    assert forall|v: int| s.to_set().contains(v) implies set_int_range(0, n).contains(v) by {
        let i = choose|i: int| 0 <= i < s.len() && s[i] == v;
        assert(order[i] < last_modified.len());
    }
    lemma_len_subset(s.to_set(), set_int_range(0, n));
    lemma_subset_equality(s.to_set(), set_int_range(0, n));
    assert(set_int_range(0, n).contains(x));
    assert(s.to_set().contains(x));
    let i = choose|i: int| 0 <= i < s.len() && s[i] == x;
    assert(order[i] == x);
}

proof fn lemma_listing_step(last_modified: Seq<i64>, first: Seq<usize>, second: Seq<usize>, i: int)
    requires
        is_listing_order(last_modified, first),
        is_listing_order(last_modified, second),
        0 <= i < first.len(),
        forall|j: int| 0 <= j < i ==> first[j] == second[j],
    ensures
        first[i] == second[i],
{
    let a = first[i] as int;
    let b = second[i] as int;
    if a != b {
        lemma_listing_names_every_project(last_modified, first, b);
        lemma_listing_names_every_project(last_modified, second, a);
        let p = choose|p: int| 0 <= p < first.len() && first[p] == b;
        let q = choose|q: int| 0 <= q < second.len() && second[q] == a;
        if p < i {
            assert(second[p] == b);
            assert(listed_before(last_modified, second[p] as int, second[i] as int));
        }
        if q < i {
            assert(first[q] == a);
            assert(listed_before(last_modified, first[q] as int, first[i] as int));
        }
        assert(p > i && q > i);
        assert(listed_before(last_modified, first[i] as int, first[p] as int));
        assert(listed_before(last_modified, second[i] as int, second[q] as int));
    }
}

proof fn lemma_listing_prefix(last_modified: Seq<i64>, first: Seq<usize>, second: Seq<usize>, i: int)
    requires
        is_listing_order(last_modified, first),
        is_listing_order(last_modified, second),
        0 <= i <= first.len(),
    ensures
        forall|j: int| 0 <= j < i ==> first[j] == second[j],
    decreases i,
{
    if i > 0 {
        lemma_listing_prefix(last_modified, first, second, i - 1);
        lemma_listing_step(last_modified, first, second, i - 1);
    }
}

/// The listing order is fully determined by the modification times: any two
/// orders that list latest first, ties in the order they were given, are equal.
pub proof fn lemma_listing_order_is_unique(last_modified: Seq<i64>, first: Seq<usize>, second: Seq<usize>)
    requires
        is_listing_order(last_modified, first),
        is_listing_order(last_modified, second),
    ensures
        first == second,
{
    lemma_listing_prefix(last_modified, first, second, first.len() as int);
    assert(first =~= second);
}

/// The index of the first entry whose path is `path`, if any: the project or
/// Unity installation that a remove command names.
pub fn find_by_path(paths: &Vec<String>, path: &str) -> (r: Option<usize>)
    ensures
        match r {
            Some(i) => {
                &&& i < paths@.len()
                &&& paths@[i as int]@ == path@
                &&& forall|j: int| 0 <= j < i ==> paths@[j]@ != path@
            },
            None => forall|j: int| 0 <= j < paths@.len() ==> paths@[j]@ != path@,
        },
{
    let mut i: usize = 0;
    while i < paths.len()
        invariant
            i <= paths@.len(),
            forall|j: int| 0 <= j < i ==> paths@[j]@ != path@,
        decreases paths@.len() - i,
    {
        if str_equals(paths[i].as_str(), path) {
            return Some(i);
        }
        i = i + 1;
    }
    None
}

/// `true` or `false`, as a boolean is printed.
pub open spec fn bool_text(b: bool) -> Seq<char> {
    if b {
        "true"@
    } else {
        "false"@
    }
}

/// The lines that list one project: its name, path, Unity version (`unknown`
/// when not known), target and whether it is a favorite.
pub fn project_listing(name: &str, path: &str, unity_version: Option<&str>, target: &str, favorite: bool) -> (r: Vec<String>)
    ensures
        r@.len() == 5,
        r@[0]@ == name@ + ":"@,
        r@[1]@ == "  Path: "@ + path@,
        r@[2]@ == "  Unity: "@ + match unity_version {
            Some(v) => v@,
            None => "unknown"@,
        },
        r@[3]@ == "  Target: "@ + target@,
        r@[4]@ == "  Is Favorite: "@ + bool_text(favorite),
{
    let mut lines: Vec<String> = Vec::new();
    let mut first = String::from_str(name);
    first.append(":");
    lines.push(first);
    let mut second = String::from_str("  Path: ");
    second.append(path);
    lines.push(second);
    let mut third = String::from_str("  Unity: ");
    match unity_version {
        Some(v) => third.append(v),
        None => third.append("unknown"),
    }
    lines.push(third);
    let mut fourth = String::from_str("  Target: ");
    fourth.append(target);
    lines.push(fourth);
    let mut fifth = String::from_str("  Is Favorite: ");
    if favorite {
        fifth.append("true");
    } else {
        fifth.append("false");
    }
    lines.push(fifth);
    lines
}

/// The line that lists one Unity installation.
pub fn unity_listing(version: Option<&str>, path: &str) -> (r: String)
    ensures
        r@ == match version {
            Some(v) => "version "@ + v@ + " at "@ + path@,
            None => "unknown version at "@ + path@,
        },
{
    match version {
        Some(v) => {
            let mut line = String::from_str("version ");
            line.append(v);
            line.append(" at ");
            line.append(path);
            line
        },
        None => {
            let mut line = String::from_str("unknown version at ");
            line.append(path);
            line
        },
    }
}

/// The message after a Unity installation was added.
pub fn unity_added_message(version: &str, path: &str) -> (r: String)
    ensures
        r@ == "Added version "@ + version@ + " at "@ + path@,
{
    let mut line = String::from_str("Added version ");
    line.append(version);
    line.append(" at ");
    line.append(path);
    line
}

/// The message when the path given to `project add` holds no valid project.
pub fn invalid_project_message(path: &str) -> (r: String)
    ensures
        r@ == "Invalid project at "@ + path@,
{
    let mut line = String::from_str("Invalid project at ");
    line.append(path);
    line
}

/// The message when no managed project has the path given to `project remove`.
pub fn no_project_message(path: &str) -> (r: String)
    ensures
        r@ == "No project found at "@ + path@,
{
    let mut line = String::from_str("No project found at ");
    line.append(path);
    line
}

/// The message when no Unity installation has the path given to `unity remove`.
pub fn no_unity_message(path: &str) -> (r: String)
    ensures
        r@ == "No unity installation found at "@ + path@,
{
    let mut line = String::from_str("No unity installation found at ");
    line.append(path);
    line
}

} // verus!
