//! The names that a deployment goes by: which files of a build are assets,
//! where a site lies on its server, and how a local path is handed to the
//! copying program.

use vstd::prelude::*;
use vstd::std_specs::iter::IteratorSpec;
use vstd::string::*;

verus! {

/// The extensions of the files that are served from the assets directory.
pub open spec fn asset_extension(extension: Seq<char>) -> bool {
    extension == "wasm"@ || extension == "js"@ || extension == "css"@
}

/// Whether a file with this extension belongs in the assets directory.
pub fn is_asset_extension(extension: &str) -> (b: bool)
    ensures
        b == asset_extension(extension@),
{
    let extension = extension.to_owned();
    extension == "wasm".to_owned() || extension == "js".to_owned() || extension == "css".to_owned()
}

/// The directory of a site on its server.
pub fn site_directory(site: &str) -> (directory: String)
    ensures
        directory@ == "/var/www/"@ + site@,
{
    let mut directory = "/var/www/".to_owned();
    directory.append(site);
    directory
}

/// A directory on a server, as the copying program wants it named: the
/// server, a colon, the directory.
pub fn remote_target(server: &str, directory: &str) -> (target: String)
    ensures
        target@ == server@ + seq![':'] + directory@,
{
    proof {
        reveal_strlit(":");
    }
    let mut target = server.to_owned();
    target.append(":");
    assert(":"@ =~= seq![':']);
    target.append(directory);
    target
}

/// A path in the verbatim form of Windows starts with two backslashes.
pub open spec fn verbatim(path: Seq<char>) -> bool {
    path.len() >= 2 && path[0] == '\\' && path[1] == '\\'
}

/// `at` is where the first colon of `path` stands.
pub open spec fn first_colon_at(path: Seq<char>, at: int) -> bool {
    &&& 0 <= at < path.len()
    &&& path[at] == ':'
    &&& forall|i: int| 0 <= i < at ==> path[i] != ':'
}

/// Why a verbatim path cannot be handed to the copying program.
#[derive(Clone, Copy, Debug, PartialEq, Eq, Structural)]
pub enum SourceError {
    /// The path names no drive: it has no colon.
    NoDrive,
    /// What stands before the colon is no drive letter: the path cannot be
    /// cut one byte before the colon.
    NoDriveLetter,
}

/// `r` is what [`scp_source`] makes of `path`.
pub open spec fn is_scp_source(path: Seq<char>, r: Result<Seq<char>, SourceError>) -> bool {
    if !verbatim(path) {
        r == Ok::<Seq<char>, SourceError>(path)
    } else if forall|i: int| 0 <= i < path.len() ==> path[i] != ':' {
        r == Err::<Seq<char>, SourceError>(SourceError::NoDrive)
    } else {
        exists|at: int|
            first_colon_at(path, at) && if path[at - 1] <= '\u{7f}' {
                r == Ok::<Seq<char>, SourceError>(path.skip(at - 1))
            } else {
                r == Err::<Seq<char>, SourceError>(SourceError::NoDriveLetter)
            }
    }
}

/// The local path as the copying program takes it: a path in verbatim form
/// is cut down to its drive letter and what follows; any other path stays.
pub fn scp_source(path: &str) -> (r: Result<&str, SourceError>)
    ensures
        is_scp_source(
            path@,
            match r {
                Ok(source) => Ok(source@),
                Err(e) => Err(e),
            },
        ),
{
    broadcast use vstd::string::group_string_axioms;

    let len = path.unicode_len();
    let mut it = path.chars();
    let first = it.next();
    let second = it.next();
    let doubled = match (first, second) {
        (Some(a), Some(b)) => a == '\\' && b == '\\',
        _ => false,
    };
    if !doubled {
        return Ok(path);
    }
    proof {
        assert(path@.skip(0).drop_first().drop_first() =~= path@.skip(2));
    }
    let mut at: usize = 2;
    let mut before: char = '\\';
    loop
        invariant
            len == path@.len(),
            verbatim(path@),
            2 <= at <= path@.len(),
            it.remaining() == path@.skip(at as int),
            it.obeys_prophetic_iter_laws(),
            forall|i: int| 0 <= i < at ==> path@[i] != ':',
            before == path@[at - 1],
        decreases path@.len() - at,
    {
        match it.next() {
            None => {
                return Err(SourceError::NoDrive);
            },
            Some(c) => {
                assert(c == path@[at as int]);
                assert(path@.skip(at as int).drop_first() =~= path@.skip(at + 1));
                if c == ':' {
                    assert(first_colon_at(path@, at as int));
                    if before > '\u{7f}' {
                        return Err(SourceError::NoDriveLetter);
                    }
                    return Ok(path.substring_char(at - 1, len));
                }
                before = c;
                at = at + 1;
            },
        }
    }
}

} // verus!
