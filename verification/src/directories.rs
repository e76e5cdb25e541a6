//! The set of conventional user directories derived from a home directory.
//!
//! Paths are joined with a backslash whichever lookup gave the home
//! directory, so a home directory written with forward slashes yields paths
//! that mix the two. This is deliberate: the paths are the same bytes on every
//! platform.

use vstd::prelude::*;
use crate::home::{lookup_text, resolve_home, resolved_home};

verus! {

/// What stands between a home directory and the name of a directory in it.
pub const PATH_SEPARATOR: &'static str = "\\";

/// The separator as a sequence of characters.
pub open spec fn path_separator() -> Seq<char> {
    "\\"@
}

/// The path of the directory `name` in `home`.
pub open spec fn subdirectory(home: Seq<char>, name: Seq<char>) -> Seq<char> {
    home + path_separator() + name
}

/// The key under which the home directory is listed.
pub open spec fn home_key() -> Seq<char> {
    "home"@
}

/// The key under which the downloads directory is listed.
pub open spec fn downloads_key() -> Seq<char> {
    "downloads"@
}

/// The key under which the documents directory is listed.
pub open spec fn documents_key() -> Seq<char> {
    "documents"@
}

/// The key under which the desktop directory is listed.
pub open spec fn desktop_key() -> Seq<char> {
    "desktop"@
}

/// The keys of a directory set.
pub open spec fn directory_keys() -> Set<Seq<char>> {
    set![home_key(), downloads_key(), documents_key(), desktop_key()]
}

/// The directories that belong to `home`, by key.
pub open spec fn directory_map(home: Seq<char>) -> Map<Seq<char>, Seq<char>> {
    map![
        home_key() => home,
        downloads_key() => subdirectory(home, "Downloads"@),
        documents_key() => subdirectory(home, "Documents"@),
        desktop_key() => subdirectory(home, "Desktop"@),
    ]
}

/// The four keys differ from one another.
pub proof fn lemma_keys_differ()
    ensures
        home_key() != downloads_key(),
        home_key() != documents_key(),
        home_key() != desktop_key(),
        downloads_key() != documents_key(),
        downloads_key() != desktop_key(),
        documents_key() != desktop_key(),
        directory_keys().finite(),
        directory_keys().len() == 4,
{
    reveal_strlit("home");
    reveal_strlit("downloads");
    reveal_strlit("documents");
    reveal_strlit("desktop");
    assert(home_key().len() == 4);
    assert(downloads_key().len() == 9);
    assert(documents_key().len() == 9);
    assert(desktop_key().len() == 7);
    assert(downloads_key()[2] == 'w');
    assert(documents_key()[2] == 'c');
    let one = Set::<Seq<char>>::empty().insert(home_key());
    let two = one.insert(downloads_key());
    let three = two.insert(documents_key());
    assert(one.len() == 1);
    assert(two.len() == 2);
    assert(three.len() == 3);
    assert(directory_keys() =~= three.insert(desktop_key()));
}

/// The directories of any home directory are listed under the four keys and
/// under no other.
pub proof fn lemma_directory_map_keys(home: Seq<char>)
    ensures
        directory_map(home).dom() == directory_keys(),
        directory_map(home).dom().len() == 4,
{
    lemma_keys_differ();
    assert(directory_map(home).dom() =~= directory_keys());
}

/// The home directory is listed as given, and each of the other three is the
/// home directory, the separator and the directory's name.
pub proof fn lemma_directory_map_paths(home: Seq<char>)
    ensures
        directory_map(home)[home_key()] == home,
        directory_map(home)[downloads_key()] == home + path_separator() + "Downloads"@,
        directory_map(home)[documents_key()] == home + path_separator() + "Documents"@,
        directory_map(home)[desktop_key()] == home + path_separator() + "Desktop"@,
{
    lemma_keys_differ();
}

/// All four paths begin with the home directory they were derived from.
pub proof fn lemma_paths_share_home(home: Seq<char>)
    ensures
        forall|key: Seq<char>| #[trigger]
            directory_map(home).contains_key(key) ==> home.is_prefix_of(
                directory_map(home)[key],
            ),
{
    lemma_keys_differ();
    assert forall|key: Seq<char>| #[trigger]
        directory_map(home).contains_key(key) implies home.is_prefix_of(
        directory_map(home)[key],
    ) by {
        let path = directory_map(home)[key];
        assert(path.subrange(0, home.len() as int) =~= home);
    }
}

/// The user's conventional directories, all derived from one home directory.
#[derive(Debug, PartialEq, Eq)]
pub struct DirectorySet {
    home: String,
    downloads: String,
    documents: String,
    desktop: String,
}

impl View for DirectorySet {
    type V = Map<Seq<char>, Seq<char>>;

    /// The paths by key. All of them follow from the home directory.
    closed spec fn view(&self) -> Map<Seq<char>, Seq<char>> {
        directory_map(self.home@)
    }
}

impl Clone for DirectorySet {
    /// A copy that lists the same paths.
    fn clone(&self) -> (copy: DirectorySet)
        ensures
            copy@ == self@,
    {
        proof {
            use_type_invariant(self);
        }
        DirectorySet {
            home: self.home.clone(),
            downloads: self.downloads.clone(),
            documents: self.documents.clone(),
            desktop: self.desktop.clone(),
        }
    }
}

/// Builds the path of the directory `name` in `home`.
fn subdirectory_path(home: &str, name: &str) -> (path: String)
    ensures
        path@ == subdirectory(home@, name@),
{
    let mut path = String::from_str(home);
    path.append(PATH_SEPARATOR);
    path.append(name);
    path
}

impl DirectorySet {
    /// The three stored paths are those of the stored home directory.
    #[verifier::type_invariant]
    spec fn derived_from_home(&self) -> bool {
        &&& self.downloads@ == subdirectory(self.home@, "Downloads"@)
        &&& self.documents@ == subdirectory(self.home@, "Documents"@)
        &&& self.desktop@ == subdirectory(self.home@, "Desktop"@)
    }

    /// Derives the directory set of `home`.
    pub fn from_home(home: String) -> (dirs: DirectorySet)
        ensures
            dirs@ == directory_map(home@),
    {
        let downloads = subdirectory_path(home.as_str(), "Downloads");
        let documents = subdirectory_path(home.as_str(), "Documents");
        let desktop = subdirectory_path(home.as_str(), "Desktop");
        DirectorySet { home, downloads, documents, desktop }
    }

    /// Resolves the home directory from the outcome of the two lookups and
    /// derives its directory set.
    pub fn resolve(primary: Option<String>, secondary: Option<String>) -> (dirs: DirectorySet)
        ensures
            dirs@ == directory_map(resolved_home(lookup_text(primary), lookup_text(secondary))),
    {
        DirectorySet::from_home(resolve_home(primary, secondary))
    }

    /// The home directory.
    pub fn home(&self) -> (path: &str)
        ensures
            path@ == self@[home_key()],
    {
        proof {
            lemma_directory_map_paths(self.home@);
        }
        self.home.as_str()
    }

    /// The downloads directory.
    pub fn downloads(&self) -> (path: &str)
        ensures
            path@ == self@[downloads_key()],
    {
        proof {
            use_type_invariant(self);
            lemma_directory_map_paths(self.home@);
        }
        self.downloads.as_str()
    }

    /// The documents directory.
    pub fn documents(&self) -> (path: &str)
        ensures
            path@ == self@[documents_key()],
    {
        proof {
            use_type_invariant(self);
            lemma_directory_map_paths(self.home@);
        }
        self.documents.as_str()
    }

    /// The desktop directory.
    pub fn desktop(&self) -> (path: &str)
        ensures
            path@ == self@[desktop_key()],
    {
        proof {
            use_type_invariant(self);
            lemma_directory_map_paths(self.home@);
        }
        self.desktop.as_str()
    }

    /// Every directory set is the one derived from the home directory it
    /// lists: it has the four keys and no other, and its paths are those of
    /// that home directory.
    pub proof fn lemma_derived_from_home(&self)
        ensures
            self@ == directory_map(self@[home_key()]),
            self@.dom() == directory_keys(),
    {
        lemma_directory_map_paths(self.home@);
        lemma_directory_map_keys(self.home@);
    }
}

} // verus!
