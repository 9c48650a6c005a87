//! Paths as text, with `/` as the separator: joining, the directory of a
//! file, and the locations that the launch reads.
use vstd::prelude::*;

use crate::error::{PathSource, StartupError};

verus! {

/// `name` appended to `base`, with one separator between them unless
/// `base` is empty or already ends with one.
pub open spec fn joined(base: Seq<char>, name: Seq<char>) -> Seq<char> {
    if base.len() == 0 {
        name
    } else if base.last() == '/' {
        base + name
    } else {
        base + seq!['/'] + name
    }
}

/// The index of the last separator in `s`, or -1 where there is none.
pub open spec fn last_sep(s: Seq<char>) -> int
    decreases s.len(),
{
    if s.len() == 0 {
        -1
    } else if s.last() == '/' {
        s.len() - 1
    } else {
        last_sep(s.drop_last())
    }
}

/// The directory that holds the file at `p`: what stands before the last
/// separator, or the root where that separator is the first character.
/// A path with no separator, or that ends in one, names no file and has no
/// such directory.
pub open spec fn dir_of(p: Seq<char>) -> Option<Seq<char>> {
    let i = last_sep(p);
    if i < 0 || i == p.len() - 1 {
        None
    } else if i == 0 {
        Some(seq!['/'])
    } else {
        Some(p.subrange(0, i))
    }
}

proof fn lemma_last_sep_bounds(s: Seq<char>)
    ensures
        -1 <= last_sep(s) < s.len(),
        last_sep(s) >= 0 ==> s[last_sep(s)] == '/',
    decreases s.len(),
{
    if s.len() > 0 && s.last() != '/' {
        lemma_last_sep_bounds(s.drop_last());
    }
}

/// Joins `name` onto `base`.
pub fn join_path(base: &str, name: &str) -> (r: String)
    ensures
        r@ == joined(base@, name@),
{
    proof {
        reveal_strlit("/");
    }
    let n = base.unicode_len();
    if n == 0 {
        return String::from_str(name);
    }
    let mut r = String::from_str(base);
    if base.get_char(n - 1) != '/' {
        r.append("/");
        assert("/"@ =~= seq!['/']);
    }
    r.append(name);
    r
}

/// The directory that holds the file at `path`.
pub fn dir_of_file(path: &str) -> (r: Option<String>)
    ensures
        match dir_of(path@) {
            Some(d) => r matches Some(s) && s@ == d,
            None => r is None,
        },
{
    let n = path.unicode_len();
    let mut i: usize = n;
    assert(path@.subrange(0, n as int) =~= path@);
    while i > 0 && path.get_char(i - 1) != '/'
        invariant
            n == path@.len(),
            i <= n,
            last_sep(path@) == last_sep(path@.subrange(0, i as int)),
        decreases i,
    {
        assert(path@.subrange(0, i as int).drop_last() =~= path@.subrange(0, i - 1));
        i = i - 1;
    }
    proof {
        lemma_last_sep_bounds(path@);
        if i > 0 {
            assert(path@.subrange(0, i as int).last() == '/');
        } else {
            assert(path@.subrange(0, 0) =~= Seq::<char>::empty());
        }
    }
    if i == 0 || i == n {
        None
    } else if i == 1 {
        proof {
            reveal_strlit("/");
            assert("/"@ =~= seq!['/']);
        }
        Some(String::from_str("/"))
    } else {
        let d = path.substring_char(0, i - 1);
        Some(String::from_str(d))
    }
}

/// The prefix of the server binary's file name.
pub const SERVER_PREFIX: &'static str = "api-server";

/// The directory, under the project directory, that holds the binaries in
/// a development build.
pub const BINARIES_DIR: &'static str = "binaries";

/// The file name of the binary built for `triple`: `<prefix>-<triple>`.
pub open spec fn binary_name(prefix: Seq<char>, triple: Seq<char>) -> Seq<char> {
    prefix + seq!['-'] + triple
}

/// Where a development build finds the binary: under the project
/// directory's binaries directory.
pub open spec fn development_path(project_dir: Seq<char>, prefix: Seq<char>, triple: Seq<char>) -> Seq<char> {
    joined(joined(project_dir, BINARIES_DIR@), binary_name(prefix, triple))
}

/// Where a production build finds the binary: beside the running
/// executable, if that has a directory.
pub open spec fn production_path(current_exe: Seq<char>, prefix: Seq<char>, triple: Seq<char>) -> Option<Seq<char>> {
    match dir_of(current_exe) {
        Some(d) => Some(joined(d, binary_name(prefix, triple))),
        None => None,
    }
}

/// How the binary is located, chosen by the build profile.
pub enum ServerLocation {
    /// A development build: binaries lie under the project directory.
    Development { project_dir: String },
    /// A production build: binaries lie beside the running executable,
    /// whose path is given.
    Production { current_exe: String },
}

/// What resolving the binary's path gives for `loc`.
pub open spec fn resolved_path(loc: ServerLocation, prefix: Seq<char>, triple: Seq<char>) -> Result<Seq<char>, StartupError> {
    match loc {
        ServerLocation::Development { project_dir } => Ok(development_path(project_dir@, prefix, triple)),
        ServerLocation::Production { current_exe } => match production_path(current_exe@, prefix, triple) {
            Some(p) => Ok(p),
            None => Err(StartupError::PathResolution(PathSource::ExecutableDir)),
        },
    }
}

/// Whether a result holding a `String` is `expected` with the string seen
/// as its characters.
pub open spec fn same_path_result(r: Result<String, StartupError>, expected: Result<Seq<char>, StartupError>) -> bool {
    match expected {
        Ok(p) => r matches Ok(s) && s@ == p,
        Err(e) => r == Err::<String, StartupError>(e),
    }
}

/// The file name of the binary built for `triple`.
pub fn binary_file_name(prefix: &str, triple: &str) -> (r: String)
    ensures
        r@ == binary_name(prefix@, triple@),
{
    proof {
        reveal_strlit("-");
        assert("-"@ =~= seq!['-']);
    }
    let mut r = String::from_str(prefix);
    r.append("-");
    r.append(triple);
    r
}

/// The path of the server binary built for `triple`, located as `loc`
/// says. Fails where a production build's executable has no directory.
pub fn resolve_server_path(loc: &ServerLocation, prefix: &str, triple: &str) -> (r: Result<String, StartupError>)
    ensures
        same_path_result(r, resolved_path(*loc, prefix@, triple@)),
{
    let name = binary_file_name(prefix, triple);
    match loc {
        ServerLocation::Development { project_dir } => {
            let bin = join_path(project_dir.as_str(), BINARIES_DIR);
            Ok(join_path(bin.as_str(), name.as_str()))
        },
        ServerLocation::Production { current_exe } => match dir_of_file(current_exe.as_str()) {
            Some(d) => Ok(join_path(d.as_str(), name.as_str())),
            None => Err(StartupError::PathResolution(PathSource::ExecutableDir)),
        },
    }
}

/// The directory under the home directory where the server keeps its data.
pub open spec fn storage_path(home: Seq<char>) -> Seq<char> {
    joined(joined(home, ".app"@), "storage"@)
}

/// The server's storage directory for the home directory `home`.
pub fn storage_dir(home: &str) -> (r: String)
    ensures
        r@ == storage_path(home@),
{
    let app = join_path(home, ".app");
    join_path(app.as_str(), "storage")
}

proof fn lemma_last_sep_no_sep_suffix(s: Seq<char>, f: Seq<char>)
    requires
        !f.contains('/'),
    ensures
        last_sep(s + f) == last_sep(s),
    decreases f.len(),
{
    if f.len() == 0 {
        assert(s + f =~= s);
    } else {
        assert((s + f).last() == f.last());
        assert((s + f).drop_last() =~= s + f.drop_last());
        assert(!f.drop_last().contains('/')) by {
            if f.drop_last().contains('/') {
                let k = choose|k: int| 0 <= k < f.drop_last().len() && f.drop_last()[k] == '/';
                assert(f[k] == '/');
            }
        }
        lemma_last_sep_no_sep_suffix(s, f.drop_last());
    }
}

/// In a development build the binary lies at
/// `<project-dir>/binaries/<prefix>-<triple>`.
pub proof fn lemma_development_layout(project_dir: Seq<char>, prefix: Seq<char>, triple: Seq<char>)
    requires
        project_dir.len() > 0,
        project_dir.last() != '/',
    ensures
        development_path(project_dir, prefix, triple)
            == project_dir + seq!['/'] + BINARIES_DIR@ + seq!['/'] + prefix + seq!['-'] + triple,
{
    reveal_strlit("binaries");
    let with_bin = project_dir + seq!['/'] + BINARIES_DIR@;
    assert(joined(project_dir, BINARIES_DIR@) == with_bin);
    assert(with_bin.last() == 's');
    assert(development_path(project_dir, prefix, triple)
        =~= project_dir + seq!['/'] + BINARIES_DIR@ + seq!['/'] + prefix + seq!['-'] + triple);
}

/// In a production build the binary lies beside the running executable:
/// for an executable at `<dir>/<file>`, at `<dir>/<prefix>-<triple>`.
pub proof fn lemma_production_layout(dir: Seq<char>, file: Seq<char>, prefix: Seq<char>, triple: Seq<char>)
    requires
        dir.len() > 0,
        dir.last() != '/',
        file.len() > 0,
        !file.contains('/'),
    ensures
        production_path(dir + seq!['/'] + file, prefix, triple)
            == Some(dir + seq!['/'] + prefix + seq!['-'] + triple),
{
    let exe = dir + seq!['/'] + file;
    let with_sep = dir + seq!['/'];
    assert(exe == with_sep + file);
    lemma_last_sep_no_sep_suffix(with_sep, file);
    assert(with_sep.last() == '/');
    assert(last_sep(exe) == dir.len());
    assert(exe.subrange(0, dir.len() as int) =~= dir);
    assert(dir_of(exe) == Some(dir));
    assert(joined(dir, binary_name(prefix, triple)) =~= dir + seq!['/'] + prefix + seq!['-'] + triple);
}

} // verus!
