use vstd::prelude::*;
use vstd::string::*;

use crate::error::DeliveryError;

verus! {

/// A path segment that names something: not empty and not `.`.
pub open spec fn names_something(seg: Seq<char>) -> bool {
    seg.len() > 0 && seg != seq!['.']
}

/// Reading `p` from the left: the last complete segment that names
/// something, and the segment after the last `/`.
pub open spec fn scan_segments(p: Seq<char>) -> (Option<Seq<char>>, Seq<char>)
    decreases p.len(),
{
    if p.len() == 0 {
        (None, Seq::empty())
    } else {
        let (last, cur) = scan_segments(p.drop_last());
        if p.last() == '/' {
            (if names_something(cur) { Some(cur) } else { last }, Seq::empty())
        } else {
            (last, cur.push(p.last()))
        }
    }
}

/// The last segment of `p` that names something, if any.
pub open spec fn last_named_segment(p: Seq<char>) -> Option<Seq<char>> {
    let (last, cur) = scan_segments(p);
    if names_something(cur) {
        Some(cur)
    } else {
        last
    }
}

/// The final component of a Unix path, as `Path::file_name` gives it: the
/// last segment between `/`s that is neither empty nor `.`, unless that is
/// `..`; none for a path without one (such as `/`, `.` or the empty path).
pub open spec fn file_name(p: Seq<char>) -> Option<Seq<char>> {
    match last_named_segment(p) {
        Some(s) => if s == seq!['.', '.'] {
            None
        } else {
            Some(s)
        },
        None => None,
    }
}

proof fn lemma_scan_names(p: Seq<char>)
    ensures
        scan_segments(p).0 matches Some(s) ==> names_something(s),
    decreases p.len(),
{
    if p.len() > 0 {
        lemma_scan_names(p.drop_last());
    }
}

/// A file name is never empty.
pub proof fn lemma_file_name_not_empty(p: Seq<char>)
    ensures
        file_name(p) matches Some(s) ==> s.len() > 0,
{
    lemma_scan_names(p);
}

/// The file name of the Unix path `p` (see `file_name`).
pub fn path_file_name(p: &str) -> (res: Option<String>)
    ensures
        match file_name(p@) {
            Some(s) => res matches Some(r) && r@ == s,
            None => res is None,
        },
{
    let n = p.unicode_len();
    let mut last: Option<String> = None;
    let mut cur = String::new();
    let mut i: usize = 0;
    while i < n
        invariant
            n == p@.len(),
            i <= n,
            (match last {
                Some(l) => Some(l@),
                None => None,
            }, cur@) == scan_segments(p@.take(i as int)),
        decreases n - i,
    {
        let c = p.get_char(i);
        proof {
            assert(p@.take(i + 1).drop_last() =~= p@.take(i as int));
            assert(p@.take(i + 1).last() == c);
        }
        if c == '/' {
            if cur.unicode_len() > 0 && !(cur.unicode_len() == 1 && cur.as_str().get_char(0) == '.') {
                proof {
                    assert(cur@ != seq!['.'] ==> !(cur@.len() == 1 && cur@[0] == '.'));
                }
                last = Some(cur);
            } else {
                proof {
                    if cur@.len() == 1 && cur@[0] == '.' {
                        assert(cur@ =~= seq!['.']);
                    }
                }
            }
            cur = String::new();
        } else {
            let one = p.substring_char(i, i + 1);
            proof {
                assert(one@ =~= seq![c]);
            }
            cur.append(one);
        }
        i = i + 1;
    }
    assert(p@.take(n as int) =~= p@);
    let named = if cur.unicode_len() > 0 && !(cur.unicode_len() == 1 && cur.as_str().get_char(0) == '.') {
        Some(cur)
    } else {
        proof {
            if cur@.len() == 1 && cur@[0] == '.' {
                assert(cur@ =~= seq!['.']);
            }
        }
        last
    };
    match named {
        Some(s) => {
            if s.unicode_len() == 2 && s.as_str().get_char(0) == '.' && s.as_str().get_char(1) == '.' {
                proof {
                    assert(s@ =~= seq!['.', '.']);
                }
                None
            } else {
                proof {
                    if s@.len() == 2 && s@[0] == '.' && s@[1] == '.' {
                        assert(s@ =~= seq!['.', '.']);
                    }
                }
                Some(s)
            }
        },
        None => None,
    }
}

/// The project name that the working directory `cwd` gives: its file name.
/// A directory without one (such as `/`) names no project.
pub fn project_from_path(cwd: &str) -> (res: String)
    requires
        file_name(cwd@) is Some,
    ensures
        res@ == file_name(cwd@)->0,
        res@.len() > 0,
{
    proof {
        lemma_file_name_not_empty(cwd@);
    }
    path_file_name(cwd).unwrap()
}

/// The view of a project result.
pub open spec fn result_view(r: Result<String, DeliveryError>) -> Result<Seq<char>, DeliveryError> {
    match r {
        Ok(s) => Ok(s@),
        Err(e) => Err(e),
    }
}

/// The project a command works on, from the `--project` option `proj` and,
/// when it was asked, what the working directory is (`dir`): a given project
/// wins; otherwise the directory's file name, or the error of asking it.
pub open spec fn project_choice(
    proj: Seq<char>,
    dir: Option<Result<Seq<char>, DeliveryError>>,
) -> Result<Seq<char>, DeliveryError> {
    if proj.len() > 0 {
        Ok(proj)
    } else {
        match dir {
            Some(Ok(p)) => match file_name(p) {
                Some(n) => Ok(n),
                None => Ok(Seq::empty()),
            },
            Some(Err(e)) => Err(e),
            None => Ok(Seq::empty()),
        }
    }
}

/// Whether every directory that `current_dir` may report has a file name.
pub open spec fn reports_named_dirs<F: FnOnce() -> Result<String, DeliveryError>>(
    current_dir: F,
) -> bool {
    forall|r: Result<String, DeliveryError>|
        #[trigger] call_ensures(current_dir, (), r) ==> (r matches Ok(p) ==> file_name(p@) is Some)
}

/// The project a command works on: `proj` when it is not empty; otherwise
/// the file name of the working directory that `current_dir` reports, or its
/// error. `current_dir` is called only when `proj` is empty, and must then
/// report a directory with a file name.
pub fn project_or_from_cwd<F: FnOnce() -> Result<String, DeliveryError>>(
    proj: &str,
    current_dir: F,
) -> (res: Result<String, DeliveryError>)
    requires
        proj@.len() == 0 ==> call_requires(current_dir, ()),
        proj@.len() == 0 ==> reports_named_dirs(current_dir),
    ensures
        proj@.len() > 0 ==> result_view(res) == project_choice(proj@, None),
        proj@.len() > 0 ==> (res matches Ok(p) && p@ == proj@),
        proj@.len() == 0 ==> exists|r: Result<String, DeliveryError>|
            call_ensures(current_dir, (), r) && result_view(res) == #[trigger] project_choice(
                proj@,
                Some(result_view(r)),
            ),
        res matches Ok(p) ==> p@.len() > 0,
{
    if proj.is_empty() {
        let r = current_dir();
        match r {
            Ok(p) => {
                let name = project_from_path(p.as_str());
                assert(result_view(Ok::<String, DeliveryError>(name)) == project_choice(
                    proj@,
                    Some(result_view(Ok::<String, DeliveryError>(p))),
                ));
                Ok(name)
            },
            Err(e) => {
                assert(result_view(Err::<String, DeliveryError>(e)) == project_choice(
                    proj@,
                    Some(result_view(Err::<String, DeliveryError>(e))),
                ));
                Err(e)
            },
        }
    } else {
        Ok(String::from_str(proj))
    }
}

/// A project that was chosen, given again as the `--project` option, is
/// chosen again unchanged, and the working directory is not asked again. It
/// holds on every input on which a choice is made: a given project, or a
/// working directory with a file name.
pub proof fn lemma_chosen_project_is_stable(
    proj: Seq<char>,
    dir: Result<Seq<char>, DeliveryError>,
    chosen: Seq<char>,
)
    requires
        proj.len() == 0 ==> (dir matches Ok(p) ==> file_name(p) is Some),
        project_choice(proj, if proj.len() > 0 { None } else { Some(dir) }) == Ok::<
            Seq<char>,
            DeliveryError,
        >(chosen),
    ensures
        chosen.len() > 0,
        project_choice(chosen, None) == Ok::<Seq<char>, DeliveryError>(chosen),
{
    if let Ok(p) = dir {
        lemma_file_name_not_empty(p);
    }
}

/// Whether `name` is a single path segment that names something other
/// than the parent directory.
pub open spec fn plain_segment(name: Seq<char>) -> bool {
    &&& name.len() > 0
    &&& forall|i: int| 0 <= i < name.len() ==> name[i] != '/'
    &&& name != seq!['.']
    &&& name != seq!['.', '.']
}

proof fn lemma_scan_reads_segment(x: Seq<char>, name: Seq<char>, k: int)
    requires
        x.len() == 0 || x.last() == '/',
        0 <= k <= name.len(),
        forall|i: int| 0 <= i < name.len() ==> name[i] != '/',
    ensures
        scan_segments(x + name.take(k)).1 == name.take(k),
    decreases k,
{
    if k == 0 {
        assert(x + name.take(0) =~= x);
        if x.len() > 0 {
            assert(scan_segments(x).1 == Seq::<char>::empty());
        }
    } else {
        lemma_scan_reads_segment(x, name, k - 1);
        let y = x + name.take(k);
        assert(y.drop_last() =~= x + name.take(k - 1));
        assert(y.last() == name[k - 1]);
        assert(name.take(k - 1).push(name[k - 1]) =~= name.take(k));
    }
}

/// The file name of a path is its last segment: for a directory `dir`
/// (empty for a relative name) and a segment `name` that is not `.` or
/// `..`, the file name of `dir/name` is `name` itself, whatever `dir` is.
pub proof fn lemma_file_name_is_last_segment(dir: Seq<char>, name: Seq<char>)
    requires
        plain_segment(name),
    ensures
        file_name(dir + seq!['/'] + name) == Some(name),
        file_name(name) == Some(name),
{
    let x = dir + seq!['/'];
    lemma_scan_reads_segment(x, name, name.len() as int);
    assert(name.take(name.len() as int) =~= name);
    assert(x + name == dir + seq!['/'] + name);
    lemma_scan_reads_segment(Seq::<char>::empty(), name, name.len() as int);
    assert(Seq::<char>::empty() + name =~= name);
}

/// A non-empty `--project` is chosen unchanged, whatever the working
/// directory is; without one, the project is the working directory's last
/// segment itself, and an error in asking for the directory is passed on.
pub proof fn lemma_project_choice(
    proj: Seq<char>,
    dir: Option<Result<Seq<char>, DeliveryError>>,
    parent: Seq<char>,
    name: Seq<char>,
    e: DeliveryError,
)
    requires
        plain_segment(name),
    ensures
        proj.len() > 0 ==> project_choice(proj, dir) == Ok::<Seq<char>, DeliveryError>(proj),
        project_choice(Seq::empty(), Some(Ok(parent + seq!['/'] + name))) == Ok::<
            Seq<char>,
            DeliveryError,
        >(name),
        project_choice(Seq::empty(), Some(Err(e))) == Err::<Seq<char>, DeliveryError>(e),
{
    lemma_file_name_is_last_segment(parent, name);
}

} // verus!
