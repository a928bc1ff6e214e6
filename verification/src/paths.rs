//! Paths as text: shell-like expansion of a path under the user's home
//! directory, and the path of the session's log file.

use vstd::prelude::*;
use vstd::string::*;
use crate::text::same_text;

verus! {

/// What `Path::starts_with` returns for the path `path` and the base `base`.
pub uninterp spec fn path_starts_with(path: Seq<char>, base: Seq<char>) -> bool;

/// What `Path::join` returns for the path `base` and the path `rest`.
pub uninterp spec fn path_joined(base: Seq<char>, rest: Seq<char>) -> Seq<char>;

/// The components of the path `path`, as `Path::components` gives them.
pub uninterp spec fn path_components(path: Seq<char>) -> Seq<Seq<char>>;

/// What `Path::is_absolute` returns for the path `path`.
pub uninterp spec fn path_is_absolute(path: Seq<char>) -> bool;

/// What `Path::file_name` returns for the path `path`.
pub uninterp spec fn path_file_name(path: Seq<char>) -> Option<Seq<char>>;

/// `Path::starts_with` tells whether `base` is a prefix of `path`, component
/// by component.
#[verifier::external_body]
fn starts_with(path: &str, base: &str) -> (r: bool)
    ensures
        r == path_starts_with(path@, base@),
{
    std::path::Path::new(path).starts_with(base)
}

/// `Path::join` appends `rest` to `base`; an absolute `rest` replaces `base`.
#[verifier::external_body]
fn join(base: &str, rest: &str) -> (r: String)
    ensures
        r@ == path_joined(base@, rest@),
{
    std::path::Path::new(base).join(rest).to_string_lossy().into_owned()
}

/// `Path::components` splits `path` into its components; each is handed
/// on as text.
#[verifier::external_body]
fn components(path: &str) -> (r: Vec<String>)
    ensures
        r@.len() == path_components(path@).len(),
        forall|i: int| 0 <= i < r@.len() ==> (#[trigger] r@[i])@ == path_components(path@)[i],
{
    std::path::Path::new(path).components().map(
        |c| c.as_os_str().to_string_lossy().into_owned(),
    ).collect()
}

/// `Path::is_absolute` tells whether `path` starts at a root.
#[verifier::external_body]
fn is_absolute(path: &str) -> (r: bool)
    ensures
        r == path_is_absolute(path@),
{
    std::path::Path::new(path).is_absolute()
}

/// `Path::file_name` gives the last component of `path`, if it is a name.
#[verifier::external_body]
fn file_name(path: &str) -> (r: Option<String>)
    ensures
        match r {
            Some(name) => path_file_name(path@) == Some(name@),
            None => path_file_name(path@) is None,
        },
{
    match std::path::Path::new(path).file_name() {
        Some(name) => Some(name.to_string_lossy().into_owned()),
        None => None,
    }
}

/// The user's home directory, and which of the base directories under it exist.
#[derive(Debug, Clone, PartialEq, Eq)]
pub struct HomeDir {
    /// The home directory.
    pub dir: String,
    /// The names, relative to the home directory, of the base directories
    /// that exist, such as `.config` or `Documents`.
    pub existing: Vec<String>,
}

/// What a [`HomeDir`] is in specifications.
pub struct HomeView {
    pub dir: Seq<char>,
    pub existing: Set<Seq<char>>,
}

impl View for HomeDir {
    type V = HomeView;

    open spec fn view(&self) -> HomeView {
        HomeView {
            dir: self.dir@,
            existing: Set::new(
                |name: Seq<char>|
                    exists|i: int| 0 <= i < self.existing@.len() && self.existing@[i]@ == name,
            ),
        }
    }
}

impl HomeDir {
    /// Tells whether the base directory `name` exists under the home directory.
    pub fn has(&self, name: &str) -> (r: bool)
        ensures
            r == self@.existing.contains(name@),
    {
        let mut i: usize = 0;
        while i < self.existing.len()
            invariant
                i <= self.existing@.len(),
                forall|k: int| 0 <= k < i ==> self.existing@[k]@ != name@,
            decreases self.existing@.len() - i,
        {
            if same_text(self.existing[i].as_str(), name) {
                return true;
            }
            i = i + 1;
        }
        false
    }
}

/// The path that `parts` make when they are joined to `base` one after another.
pub open spec fn joined_all(base: Seq<char>, parts: Seq<Seq<char>>) -> Seq<char>
    decreases parts.len(),
{
    if parts.len() == 0 {
        base
    } else {
        path_joined(joined_all(base, parts.drop_last()), parts.last())
    }
}

/// The path made of all components of `path` but the first.
pub open spec fn path_after_first(path: Seq<char>) -> Seq<char> {
    let parts = path_components(path);
    if parts.len() == 0 {
        Seq::empty()
    } else {
        joined_all(Seq::empty(), parts.subrange(1, parts.len() as int))
    }
}

/// Makes a path of all components of `path` but the first.
fn after_first(path: &str) -> (r: String)
    ensures
        r@ == path_after_first(path@),
{
    let parts = components(path);
    let mut rest = String::new();
    if parts.len() == 0 {
        return rest;
    }
    let ghost tail = path_components(path@).subrange(1, parts@.len() as int);
    let mut i: usize = 1;
    while i < parts.len()
        invariant
            1 <= i <= parts@.len(),
            parts@.len() == path_components(path@).len(),
            forall|k: int|
                0 <= k < parts@.len() ==> (#[trigger] parts@[k])@ == path_components(path@)[k],
            tail == path_components(path@).subrange(1, parts@.len() as int),
            rest@ == joined_all(Seq::empty(), tail.take(i - 1)),
        decreases parts@.len() - i,
    {
        proof {
            assert(tail.take(i as int).drop_last() =~= tail.take(i - 1));
        }
        rest = join(rest.as_str(), parts[i].as_str());
        i = i + 1;
    }
    proof {
        assert(tail.take(i - 1) =~= tail);
    }
    rest
}

/// One rule of expansion applied to `path`: a path that starts with the
/// component `var` becomes the rest of the path under the home directory,
/// or under its base directory `to` if the rule names one. Without a home
/// directory, or where the base directory does not exist, there is no
/// result. A path that does not start with `var` stays as it is.
pub open spec fn expand_rule(
    path: Seq<char>,
    var: Seq<char>,
    to: Option<Seq<char>>,
    home: Option<HomeView>,
) -> Option<Seq<char>> {
    if path_starts_with(path, var) {
        match home {
            None => None,
            Some(h) => match to {
                None => Some(path_joined(h.dir, path_after_first(path))),
                Some(t) => if h.existing.contains(t) {
                    Some(path_joined(path_joined(h.dir, t), path_after_first(path)))
                } else {
                    None
                },
            },
        }
    } else {
        Some(path)
    }
}

/// The next rule of expansion applied to what the rules before it gave.
pub open spec fn then_rule(
    so_far: Option<Seq<char>>,
    var: Seq<char>,
    to: Option<Seq<char>>,
    home: Option<HomeView>,
) -> Option<Seq<char>> {
    match so_far {
        Some(path) => expand_rule(path, var, to, home),
        None => None,
    }
}

/// The expansion of `path`: the rules for `~`, `$HOME` and the base
/// directories, one after another.
pub open spec fn expanded(path: Seq<char>, home: Option<HomeView>) -> Option<Seq<char>> {
    let p = expand_rule(path, "~"@, None, home);
    let p = then_rule(p, "$HOME"@, None, home);
    let p = then_rule(p, "$XDG_CACHE_HOME"@, Some(".cache"@), home);
    let p = then_rule(p, "$XDG_CONFIG_HOME"@, Some(".config"@), home);
    let p = then_rule(p, "$XDG_DATA_HOME"@, Some(".local/share"@), home);
    let p = then_rule(p, "$XDG_DESKTOP_DIR"@, Some("Desktop"@), home);
    let p = then_rule(p, "$XDG_DOCUMENTS_DIR"@, Some("Documents"@), home);
    let p = then_rule(p, "$XDG_DOWNLOAD_DIR"@, Some("Downloads"@), home);
    let p = then_rule(p, "$XDG_MUSIC_DIR"@, Some("Music"@), home);
    let p = then_rule(p, "$XDG_PICTURES_DIR"@, Some("Pictures"@), home);
    let p = then_rule(p, "$XDG_PUBLICSHARE_DIR"@, Some("Public"@), home);
    let p = then_rule(p, "$XDG_STATE_HOME"@, Some(".local/state"@), home);
    then_rule(p, "$XDG_TEMPLATES_DIR"@, Some("Templates"@), home)
}

/// The base directories under the home directory that a path can name,
/// relative to the home directory.
pub fn base_directories() -> (names: Vec<&'static str>)
    ensures
        names@.len() == 11,
        names@[0]@ == ".cache"@,
        names@[1]@ == ".config"@,
        names@[2]@ == ".local/share"@,
        names@[3]@ == "Desktop"@,
        names@[4]@ == "Documents"@,
        names@[5]@ == "Downloads"@,
        names@[6]@ == "Music"@,
        names@[7]@ == "Pictures"@,
        names@[8]@ == "Public"@,
        names@[9]@ == ".local/state"@,
        names@[10]@ == "Templates"@,
{
    vec![
        ".cache",
        ".config",
        ".local/share",
        "Desktop",
        "Documents",
        "Downloads",
        "Music",
        "Pictures",
        "Public",
        ".local/state",
        "Templates",
    ]
}

/// The view of a home directory that may be missing.
pub open spec fn home_view(home: Option<&HomeDir>) -> Option<HomeView> {
    match home {
        Some(h) => Some(h@),
        None => None,
    }
}

/// Applies one rule of expansion to what the rules before it gave.
fn apply_rule(so_far: Option<String>, var: &str, to: Option<&str>, home: Option<&HomeDir>) -> (r:
    Option<String>)
    ensures
        match r {
            Some(p) => then_rule(
                match so_far {
                    Some(s) => Some(s@),
                    None => None,
                },
                var@,
                match to {
                    Some(t) => Some(t@),
                    None => None,
                },
                home_view(home),
            ) == Some(p@),
            None => then_rule(
                match so_far {
                    Some(s) => Some(s@),
                    None => None,
                },
                var@,
                match to {
                    Some(t) => Some(t@),
                    None => None,
                },
                home_view(home),
            ) is None,
        },
{
    match so_far {
        None => None,
        Some(path) => {
            if starts_with(path.as_str(), var) {
                match home {
                    None => None,
                    Some(h) => {
                        let rest = after_first(path.as_str());
                        match to {
                            None => Some(join(h.dir.as_str(), rest.as_str())),
                            Some(t) => {
                                if h.has(t) {
                                    let base = join(h.dir.as_str(), t);
                                    Some(join(base.as_str(), rest.as_str()))
                                } else {
                                    None
                                }
                            },
                        }
                    },
                }
            } else {
                Some(path)
            }
        },
    }
}

/// Paths that can be expanded the way a shell expands them.
pub trait ExpandPaths: Sized {
    /// The path as text.
    spec fn text(self) -> Seq<char>;

    /// Expands the path: `~`, `$HOME` and the variables of the base
    /// directories at its start are replaced by directories under `home`.
    /// There is no result where the path needs a home directory and `home`
    /// is missing, or needs a base directory that does not exist.
    fn get_expanded_path(self, home: Option<&HomeDir>) -> (r: Option<String>)
        ensures
            match r {
                Some(p) => expanded(self.text(), home_view(home)) == Some(p@),
                None => expanded(self.text(), home_view(home)) is None,
            },
    ;
}

impl ExpandPaths for String {
    open spec fn text(self) -> Seq<char> {
        self@
    }

    fn get_expanded_path(self, home: Option<&HomeDir>) -> (r: Option<String>) {
        let p = apply_rule(Some(self), "~", None, home);
        let p = apply_rule(p, "$HOME", None, home);
        let p = apply_rule(p, "$XDG_CACHE_HOME", Some(".cache"), home);
        let p = apply_rule(p, "$XDG_CONFIG_HOME", Some(".config"), home);
        let p = apply_rule(p, "$XDG_DATA_HOME", Some(".local/share"), home);
        let p = apply_rule(p, "$XDG_DESKTOP_DIR", Some("Desktop"), home);
        let p = apply_rule(p, "$XDG_DOCUMENTS_DIR", Some("Documents"), home);
        let p = apply_rule(p, "$XDG_DOWNLOAD_DIR", Some("Downloads"), home);
        let p = apply_rule(p, "$XDG_MUSIC_DIR", Some("Music"), home);
        let p = apply_rule(p, "$XDG_PICTURES_DIR", Some("Pictures"), home);
        let p = apply_rule(p, "$XDG_PUBLICSHARE_DIR", Some("Public"), home);
        let p = apply_rule(p, "$XDG_STATE_HOME", Some(".local/state"), home);
        apply_rule(p, "$XDG_TEMPLATES_DIR", Some("Templates"), home)
    }
}

/// The name of the log file for the port `port` at the time written as
/// `stamp`: the last component of the port's path, a hyphen, the stamp, and
/// `.txt`, under the current directory.
pub open spec fn default_log_name(port_name: Seq<char>, stamp: Seq<char>) -> Seq<char> {
    "./"@ + port_name + "-"@ + stamp + ".txt"@
}

/// The path of the log file. A path given in absolute form stands as it is;
/// another is taken under `out_dir`. Where no path is given, the file is named
/// after the port and the time under `out_dir`; there is no result where the
/// port's path has no name at its end.
pub open spec fn log_path(
    file: Option<Seq<char>>,
    out_dir: Seq<char>,
    port: Seq<char>,
    stamp: Seq<char>,
) -> Option<Seq<char>> {
    match file {
        Some(path) => if path_is_absolute(path) {
            Some(path)
        } else {
            Some(path_joined(out_dir, path))
        },
        None => match path_file_name(port) {
            Some(name) => Some(path_joined(out_dir, default_log_name(name, stamp))),
            None => None,
        },
    }
}

/// Finds the path of the log file; `stamp` is the time of the session's
/// start written as month, day, hour and minute.
pub fn log_file_path(file: Option<&str>, out_dir: &str, port: &str, stamp: &str) -> (r: Option<
    String,
>)
    ensures
        match r {
            Some(p) => log_path(
                match file {
                    Some(f) => Some(f@),
                    None => None,
                },
                out_dir@,
                port@,
                stamp@,
            ) == Some(p@),
            None => log_path(
                match file {
                    Some(f) => Some(f@),
                    None => None,
                },
                out_dir@,
                port@,
                stamp@,
            ) is None,
        },
{
    match file {
        Some(path) => {
            if is_absolute(path) {
                Some(path.to_owned())
            } else {
                Some(join(out_dir, path))
            }
        },
        None => {
            match file_name(port) {
                Some(name) => {
                    let mut local = "./".to_owned();
                    local.append(name.as_str());
                    local.append("-");
                    local.append(stamp);
                    local.append(".txt");
                    Some(join(out_dir, local.as_str()))
                },
                None => None,
            }
        },
    }
}

} // verus!
