//! File-system paths as text.
//!
//! Paths are held as strings. How a path splits into a directory and a last
//! component, and how two paths join, is left to `std::path`, as it defines
//! them for the platform the library is built for; this module gives those
//! answers names so that contracts can speak of them.

use vstd::prelude::*;

verus! {

/// Whether `std::path::Path::is_absolute` holds of the path `path`.
pub uninterp spec fn path_is_absolute(path: Seq<char>) -> bool;

/// What `std::path::Path::parent` gives for the path `path`: the path
/// without its last component, or `None` where it has no parent.
pub uninterp spec fn path_parent(path: Seq<char>) -> Option<Seq<char>>;

/// What `std::path::Path::join` gives for `base` and `tail`.
pub uninterp spec fn path_join(base: Seq<char>, tail: Seq<char>) -> Seq<char>;

/// The characters of an optional string.
pub open spec fn text_of(s: Option<String>) -> Option<Seq<char>> {
    match s {
        Some(t) => Some(t@),
        None => None,
    }
}

/// Asks `std::path::Path::is_absolute` whether `path` is absolute. The
/// answer is a function of the text alone, named `path_is_absolute`.
#[verifier::external_body]
pub(crate) fn is_absolute(path: &str) -> (absolute: bool)
    ensures
        absolute == path_is_absolute(path@),
{
    std::path::Path::new(path).is_absolute()
}

/// Asks `std::path::Path::parent` for the parent of `path`. The answer is a
/// function of the text alone, named `path_parent`; the parent of a path
/// given as text is text again.
#[verifier::external_body]
pub(crate) fn parent(path: &str) -> (dir: Option<String>)
    ensures
        text_of(dir) == path_parent(path@),
{
    match std::path::Path::new(path).parent() {
        Some(dir) => Some(dir.to_string_lossy().into_owned()),
        None => None,
    }
}

/// Joins `tail` onto `base` with `std::path::Path::join`. The answer is a
/// function of the two texts alone, named `path_join`; the join of two
/// paths given as text is text again.
#[verifier::external_body]
pub(crate) fn join(base: &str, tail: &str) -> (joined: String)
    ensures
        joined@ == path_join(base@, tail@),
{
    std::path::Path::new(base).join(tail).to_string_lossy().into_owned()
}

/// Where a symbolic link found at `current` leads: to its target when that
/// is absolute, else to the target taken relative to the directory that
/// holds the link, else, where the link has no directory, to the target as
/// it stands.
pub open spec fn link_target(current: Seq<char>, target: Seq<char>) -> Seq<char> {
    if path_is_absolute(target) {
        target
    } else {
        match path_parent(current) {
            Some(dir) => path_join(dir, target),
            None => target,
        }
    }
}

/// Picks the destination of a link from what is known of it: whether its
/// target is absolute, and the target joined onto the link's directory
/// where the link has one.
pub fn choose_destination(target: String, absolute: bool, beside_link: Option<String>) -> (dest:
    String)
    ensures
        dest@ == if absolute {
            target@
        } else {
            match beside_link {
                Some(joined) => joined@,
                None => target@,
            }
        },
{
    if absolute {
        target
    } else {
        match beside_link {
            Some(joined) => joined,
            None => target,
        }
    }
}

/// Where a symbolic link found at `current`, pointing at `target`, leads.
pub fn follow_link(current: &str, target: String) -> (dest: String)
    ensures
        dest@ == link_target(current@, target@),
{
    let absolute = is_absolute(target.as_str());
    let beside_link = if absolute {
        None
    } else {
        match parent(current) {
            Some(dir) => Some(join(dir.as_str(), target.as_str())),
            None => None,
        }
    };
    choose_destination(target, absolute, beside_link)
}

/// The configuration file below a configuration directory.
pub open spec fn config_below(config_dir: Seq<char>) -> Seq<char> {
    path_join(config_dir, "roboapp/config.toml"@)
}

/// The configuration file when none was asked for: below the directory
/// that `XDG_CONFIG_HOME` names, else below `.config` in the home
/// directory.
pub open spec fn default_config_file(xdg_config_home: Option<Seq<char>>, home: Option<Seq<char>>) -> Seq<char>
    recommends
        xdg_config_home is Some || home is Some,
{
    match xdg_config_home {
        Some(dir) => config_below(dir),
        None => config_below(path_join(home.unwrap(), ".config"@)),
    }
}

/// Picks the default configuration file from the joined candidates: the
/// one below `XDG_CONFIG_HOME` where that is set, else the one below the
/// home directory.
pub fn choose_default(below_xdg: Option<String>, below_home: Option<String>) -> (file: String)
    requires
        below_xdg is Some || below_home is Some,
    ensures
        file@ == match below_xdg {
            Some(f) => f@,
            None => below_home.unwrap()@,
        },
{
    match below_xdg {
        Some(f) => f,
        None => below_home.unwrap(),
    }
}

/// The configuration file when none was asked for, from the value of
/// `XDG_CONFIG_HOME` and the home directory, as far as they are known. One
/// of the two has to be known.
pub fn default_config_path(xdg_config_home: Option<String>, home: Option<String>) -> (file: String)
    requires
        xdg_config_home is Some || home is Some,
    ensures
        file@ == default_config_file(text_of(xdg_config_home), text_of(home)),
{
    let below_xdg = match &xdg_config_home {
        Some(dir) => Some(join(dir.as_str(), "roboapp/config.toml")),
        None => None,
    };
    let below_home = match (&xdg_config_home, &home) {
        (None, Some(dir)) => {
            let config_dir = join(dir.as_str(), ".config");
            Some(join(config_dir.as_str(), "roboapp/config.toml"))
        },
        _ => None,
    };
    choose_default(below_xdg, below_home)
}

} // verus!
