//! Where the sidecar script and its resources are looked for. The answer
//! depends on the kind of build and on the bundled-resources directory that
//! the platform reports; it is worked out afresh for every start.

use vstd::prelude::*;
use vstd::string::StringExecFns;

verus! {

/// The two paths of one start attempt.
#[derive(Clone, Debug, PartialEq, Eq)]
pub struct LaunchPaths {
    /// The sidecar's entry script.
    pub script: String,
    /// The directory that the sidecar serves its resources from.
    pub resource_root: String,
}

/// A directory, or the current directory where none could be told.
pub open spec fn dir_or_cwd(found: Option<Seq<char>>) -> Seq<char> {
    match found {
        Some(dir) => dir,
        None => "."@,
    }
}

/// The directory under which the script is looked for: the build tree in a
/// development build, the bundled resources in a packaged one.
pub open spec fn script_base_of(
    debug_build: bool,
    manifest_dir: Seq<char>,
    resource_dir: Seq<char>,
) -> Seq<char> {
    if debug_build {
        manifest_dir
    } else {
        resource_dir
    }
}

/// The resource root: the parent of the build tree in a development build
/// (the current directory where it has none), the bundled resources in a
/// packaged one.
pub open spec fn resource_root_of(
    debug_build: bool,
    manifest_parent: Option<Seq<char>>,
    resource_dir: Seq<char>,
) -> Seq<char> {
    if debug_build {
        dir_or_cwd(manifest_parent)
    } else {
        resource_dir
    }
}

/// What `std::path::Path::join` gives for `base` and `relative`, in the path
/// syntax of the platform that the library is built for.
pub uninterp spec fn joined_path(base: Seq<char>, relative: Seq<char>) -> Seq<char>;

/// What `std::path::Path::parent` gives for `path`, in the path syntax of the
/// platform that the library is built for: `None` where the path ends in a
/// root or is empty.
pub uninterp spec fn parent_of_path(path: Seq<char>) -> Option<Seq<char>>;

/// `std::path::Path::join`, on paths held as text: `relative` adjoined to
/// `base`. The result is a function of the two texts, known by its name only.
#[verifier::external_body]
fn join_path(base: &str, relative: &str) -> (joined: String)
    ensures
        joined@ == joined_path(base@, relative@),
{
    std::path::Path::new(base).join(relative).to_string_lossy().into_owned()
}

/// `std::path::Path::parent`, on a path held as text: the path without its
/// last component. The result is a function of the text, known by its name only.
#[verifier::external_body]
fn parent_path(path: &str) -> (parent: Option<String>)
    ensures
        parent_of_path(path@) == match parent {
            Some(p) => Some(p@),
            None => None,
        },
{
    std::path::Path::new(path).parent().map(|p| p.to_string_lossy().into_owned())
}

/// The script of the sidecar, relative to the directory it is looked for in.
pub const SIDECAR_SCRIPT: &'static str = "sidecar/local-api-server.mjs";

/// The script path of a start attempt.
pub open spec fn script_path_of(
    debug_build: bool,
    manifest_dir: Seq<char>,
    resource_dir: Option<Seq<char>>,
) -> Seq<char> {
    joined_path(
        script_base_of(debug_build, manifest_dir, dir_or_cwd(resource_dir)),
        SIDECAR_SCRIPT@,
    )
}

/// The resource root of a start attempt.
pub open spec fn resource_root_path_of(
    debug_build: bool,
    manifest_dir: Seq<char>,
    resource_dir: Option<Seq<char>>,
) -> Seq<char> {
    resource_root_of(
        debug_build,
        parent_of_path(manifest_dir),
        dir_or_cwd(resource_dir),
    )
}

/// The text of an optional string.
pub open spec fn text_of(s: Option<String>) -> Option<Seq<char>> {
    match s {
        Some(t) => Some(t@),
        None => None,
    }
}

/// The directory to work with: `found`, or the current directory without one.
pub fn resolve_dir(found: Option<String>) -> (dir: String)
    ensures
        dir@ == dir_or_cwd(text_of(found)),
{
    match found {
        Some(dir) => dir,
        None => String::from_str("."),
    }
}

/// The directory under which the script is looked for.
pub fn script_base<'a>(debug_build: bool, manifest_dir: &'a str, resource_dir: &'a str) -> (base:
    &'a str)
    ensures
        base@ == script_base_of(debug_build, manifest_dir@, resource_dir@),
{
    if debug_build {
        manifest_dir
    } else {
        resource_dir
    }
}

/// The directory that the sidecar serves its resources from.
pub fn resource_root(
    debug_build: bool,
    manifest_parent: Option<String>,
    resource_dir: String,
) -> (root: String)
    ensures
        root@ == resource_root_of(debug_build, text_of(manifest_parent), resource_dir@),
{
    if debug_build {
        resolve_dir(manifest_parent)
    } else {
        resource_dir
    }
}

/// Resolves the script path and the resource root for one start attempt.
/// `manifest_dir` is the build tree of a development build; `resource_dir` is
/// the bundled-resources directory, if the platform could tell it.
///
/// In a development build the script lies under the build tree and the
/// resource root is the build tree's parent; in a packaged build the script
/// lies under the bundled resources, which are the resource root too.
pub fn local_api_paths(debug_build: bool, manifest_dir: &str, resource_dir: Option<String>) -> (paths:
    LaunchPaths)
    ensures
        paths.script@ == script_path_of(debug_build, manifest_dir@, text_of(resource_dir)),
        paths.resource_root@ == resource_root_path_of(
            debug_build,
            manifest_dir@,
            text_of(resource_dir),
        ),
{
    let resource_dir = resolve_dir(resource_dir);
    let script = join_path(
        script_base(debug_build, manifest_dir, resource_dir.as_str()),
        SIDECAR_SCRIPT,
    );
    let manifest_parent = if debug_build {
        parent_path(manifest_dir)
    } else {
        None
    };
    LaunchPaths { script, resource_root: resource_root(debug_build, manifest_parent, resource_dir) }
}

} // verus!
