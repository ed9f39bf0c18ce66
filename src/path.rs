use vstd::prelude::*;
use vstd::string::*;

verus! {

/// What `std::path::Path::parent` gives for the path `p`, as text.
pub uninterp spec fn path_parent_of(p: Seq<char>) -> Option<Seq<char>>;

/// What `std::path::Path::file_name` gives for the path `p`, as text.
pub uninterp spec fn path_file_name_of(p: Seq<char>) -> Option<Seq<char>>;

/// What `std::path::Path::join` gives for the directory `dir` and the name `name`.
pub uninterp spec fn path_joined(dir: Seq<char>, name: Seq<char>) -> Seq<char>;

pub open spec fn opt_view(o: Option<String>) -> Option<Seq<char>> {
    match o {
        Some(s) => Some(s@),
        None => None,
    }
}

/// Relies on `std::path::Path::parent`: the directory part of a path, if any.
#[verifier::external_body]
fn parent_of(path: &str) -> (r: Option<String>)
    ensures
        opt_view(r) == path_parent_of(path@),
{
    match std::path::Path::new(path).parent() {
        Some(p) => Some(p.to_string_lossy().into_owned()),
        None => None,
    }
}

/// Relies on `std::path::Path::file_name`: the last component of a path,
/// unless it is `..` or there is none.
#[verifier::external_body]
fn file_name_of(path: &str) -> (r: Option<String>)
    ensures
        opt_view(r) == path_file_name_of(path@),
{
    match std::path::Path::new(path).file_name() {
        Some(n) => Some(n.to_string_lossy().into_owned()),
        None => None,
    }
}

/// Relies on `std::path::Path::join`: `name` placed inside the directory `dir`.
#[verifier::external_body]
fn join_path(dir: &str, name: &str) -> (r: String)
    ensures
        r@ == path_joined(dir@, name@),
{
    std::path::Path::new(dir).join(name).to_string_lossy().into_owned()
}

/// Name used for a file whose path has no last component.
pub open spec fn default_file_name() -> Seq<char> {
    "output.wav"@
}

/// The hidden temporary name for the file name `name`: `.name.tmp`.
pub open spec fn temp_name(name: Seq<char>) -> Seq<char> {
    "."@ + name + ".tmp"@
}

/// The temporary path that stands beside `p` while `p` is being replaced.
pub open spec fn temp_path(p: Seq<char>) -> Seq<char> {
    let name = match path_file_name_of(p) {
        Some(n) => n,
        None => default_file_name(),
    };
    match path_parent_of(p) {
        Some(d) => path_joined(d, temp_name(name)),
        None => temp_name(name),
    }
}

/// Builds the hidden temporary file name `.name.tmp` for `name`.
pub fn temp_file_name(name: &str) -> (r: String)
    ensures
        r@ == temp_name(name@),
{
    let mut r = String::from_str(".");
    r.append(name);
    r.append(".tmp");
    proof {
        reveal_strlit(".");
        reveal_strlit(".tmp");
    }
    r
}

/// Computes a temporary path in the same directory as `path`, so that a
/// rename from it onto `path` stays on one filesystem, together with that
/// directory, if `path` has one.
pub fn temp_path_in_same_dir(path: &str) -> (r: (String, Option<String>))
    ensures
        r.0@ == temp_path(path@),
        opt_view(r.1) == path_parent_of(path@),
{
    let parent = parent_of(path);
    let stem = match file_name_of(path) {
        Some(n) => n,
        None => {
            proof { reveal_strlit("output.wav"); }
            String::from_str("output.wav")
        },
    };
    let tmp_name = temp_file_name(stem.as_str());
    let tmp_path = match &parent {
        Some(p) => join_path(p.as_str(), tmp_name.as_str()),
        None => tmp_name,
    };
    (tmp_path, parent)
}

/// The directory whose entries must be synced once `path` has been
/// replaced: the parent of `path`, if it has one.
pub fn sync_parent_dir(path: &str) -> (r: Option<String>)
    ensures
        opt_view(r) == path_parent_of(path@),
{
    parent_of(path)
}

} // verus!
