//! Topic keys of dropped files: one parent directory level, a `/`, then the file name.

use vstd::prelude::*;
use vstd::string::*;

verus! {

/// The final component of the path spelled by `path`, as `std::path::Path::file_name`
/// gives it under the target's path syntax, converted to text.
pub uninterp spec fn path_file_name(path: Seq<char>) -> Option<Seq<char>>;

/// The path spelled by `path` without its final component, as
/// `std::path::Path::parent` gives it under the target's path syntax, converted to text.
pub uninterp spec fn path_parent(path: Seq<char>) -> Option<Seq<char>>;

/// The text of an optional string.
pub open spec fn opt_view(o: Option<String>) -> Option<Seq<char>> {
    match o {
        Some(s) => Some(s@),
        None => None,
    }
}

/// `s` holds no `/`.
pub open spec fn no_slash(s: Seq<char>) -> bool {
    forall|i: int| 0 <= i < s.len() ==> #[trigger] s[i] != '/'
}

/// `s` holds at most one `/`.
pub open spec fn at_most_one_slash(s: Seq<char>) -> bool {
    forall|i: int, j: int| 0 <= i < j < s.len() && #[trigger] s[i] == '/' ==> #[trigger] s[j] != '/'
}

/// `s` ends with `suffix`.
pub open spec fn ends_with(s: Seq<char>, suffix: Seq<char>) -> bool {
    suffix.len() <= s.len() && s.subrange(s.len() - suffix.len(), s.len() as int) == suffix
}

/// A file name, or `unknown` where there is none.
pub open spec fn name_or_unknown(name: Option<Seq<char>>) -> Seq<char> {
    match name {
        Some(n) => n,
        None => "unknown"@,
    }
}

/// The topic key made of a file name and the name of its directory.
pub open spec fn topic_key_spec(file_name: Option<Seq<char>>, parent_dir: Option<Seq<char>>) -> Seq<char> {
    match parent_dir {
        Some(dir) => dir + "/"@ + name_or_unknown(file_name),
        None => name_or_unknown(file_name),
    }
}

/// The name of the directory that holds the file at `path`.
pub open spec fn parent_dir_name(path: Seq<char>) -> Option<Seq<char>> {
    match path_parent(path) {
        Some(p) => path_file_name(p),
        None => None,
    }
}

/// The name under which a dropped file at `path` is shown and published.
pub open spec fn dropped_name_spec(path: Seq<char>) -> Seq<char> {
    name_or_unknown(path_file_name(path))
}

/// The topic key of the file at `path`.
pub open spec fn topic_key_of(path: Seq<char>) -> Seq<char> {
    topic_key_spec(path_file_name(path), parent_dir_name(path))
}

/// Calls `std::path::Path::file_name` on `path` and converts the component to a `String`.
/// Claimed: the text is what `path_file_name` names. Nothing is claimed of the
/// characters a component may hold: that depends on the target's path syntax.
#[verifier::external_body]
fn file_name_of(path: &str) -> (r: Option<String>)
    ensures
        opt_view(r) == path_file_name(path@),
{
    match std::path::Path::new(path).file_name() {
        Some(n) => Some(n.to_string_lossy().into_owned()),
        None => None,
    }
}

/// Calls `std::path::Path::parent` on `path` and converts the result to a `String`.
/// Claimed: the text is what `path_parent` names.
#[verifier::external_body]
fn parent_of(path: &str) -> (r: Option<String>)
    ensures
        opt_view(r) == path_parent(path@),
{
    match std::path::Path::new(path).parent() {
        Some(p) => Some(p.to_string_lossy().into_owned()),
        None => None,
    }
}

/// A topic key ends with the file's name (or `unknown`); and where neither the file
/// name nor the directory name holds a `/`, the key holds at most one: one parent
/// level, then the name.
pub proof fn lemma_topic_key_shape(file_name: Option<Seq<char>>, parent_dir: Option<Seq<char>>)
    ensures
        ends_with(topic_key_spec(file_name, parent_dir), name_or_unknown(file_name)),
        (file_name matches Some(n) ==> no_slash(n)) && (parent_dir matches Some(d) ==> no_slash(d))
            ==> at_most_one_slash(topic_key_spec(file_name, parent_dir)),
{
    reveal_strlit("/");
    reveal_strlit("unknown");
    let name = name_or_unknown(file_name);
    let k = topic_key_spec(file_name, parent_dir);
    match parent_dir {
        Some(dir) => {
            assert(k.subrange(k.len() - name.len(), k.len() as int) =~= name);
            if (file_name matches Some(n) ==> no_slash(n)) && no_slash(dir) {
                assert(no_slash(name));
                assert forall|i: int, j: int| 0 <= i < j < k.len() && #[trigger] k[i] == '/' implies #[trigger] k[j]
                    != '/' by {
                    if i < dir.len() {
                        assert(k[i] == dir[i]);
                    } else if i > dir.len() {
                        assert(k[i] == name[i - dir.len() - 1]);
                    }
                    assert(k[j] == name[j - dir.len() - 1]);
                }
            }
        },
        None => {
            assert(k.subrange(0, k.len() as int) =~= name);
            if file_name matches Some(n) ==> no_slash(n) {
                assert(no_slash(name));
            }
        },
    }
}

/// The text of a file name, or `unknown` where there is none.
pub fn name_or_unknown_exec(name: Option<String>) -> (r: String)
    ensures
        r@ == name_or_unknown(opt_view(name)),
{
    match name {
        Some(n) => n,
        None => String::from_str("unknown"),
    }
}

/// Builds a topic key from a file name and the name of its directory: `dir/name` where
/// the directory is known, the bare name where it is not, and `unknown` in place of a
/// missing file name.
pub fn topic_key_from_parts(file_name: Option<String>, parent_dir: Option<String>) -> (r: String)
    ensures
        r@ == topic_key_spec(opt_view(file_name), opt_view(parent_dir)),
{
    let name = name_or_unknown_exec(file_name);
    match parent_dir {
        Some(dir) => dir.concat("/").concat(name.as_str()),
        None => name,
    }
}

/// The name under which the file dropped at `path` is shown and published: its final
/// path component, or `unknown`.
pub fn dropped_file_name(path: &str) -> (r: String)
    ensures
        r@ == dropped_name_spec(path@),
{
    let name = file_name_of(path);
    name_or_unknown_exec(name)
}

/// Derives the topic key of the file at `path`: one parent directory level and the file
/// name, e.g. `/Users/sam/Documents/photo.jpg` gives `Documents/photo.jpg`.
pub fn derive_topic_key(path: &str) -> (r: String)
    ensures
        r@ == topic_key_of(path@),
        ends_with(r@, dropped_name_spec(path@)),
{
    let file_name = file_name_of(path);
    let parent_dir = match parent_of(path) {
        Some(p) => file_name_of(p.as_str()),
        None => None,
    };
    proof {
        lemma_topic_key_shape(opt_view(file_name), opt_view(parent_dir));
    }
    topic_key_from_parts(file_name, parent_dir)
}

} // verus!
