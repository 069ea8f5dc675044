use vstd::prelude::*;
use vstd::string::*;

use crate::error::{DeliveryError, Kind};

verus! {

/// `base` extended by `comp` as `PathBuf::push` does on Unix: an absolute
/// `comp` replaces the path; otherwise a `/` is put between the two unless
/// `base` is empty or already ends in one.
pub open spec fn path_join(base: Seq<char>, comp: Seq<char>) -> Seq<char> {
    if comp.len() > 0 && comp[0] == '/' {
        comp
    } else if base.len() > 0 && base.last() != '/' {
        base + seq!['/'] + comp
    } else {
        base + comp
    }
}

/// `base` extended by each of `comps` in turn.
pub open spec fn path_join_all(base: Seq<char>, comps: Seq<Seq<char>>) -> Seq<char>
    decreases comps.len(),
{
    if comps.len() == 0 {
        base
    } else {
        path_join(path_join_all(base, comps.drop_last()), comps.last())
    }
}

/// `base` joined with `comp` (see `path_join`).
pub fn join_path(base: &str, comp: &str) -> (res: String)
    ensures
        res@ == path_join(base@, comp@),
{
    if !comp.is_empty() && comp.get_char(0) == '/' {
        return String::from_str(comp);
    }
    let mut res = String::from_str(base);
    if !base.is_empty() {
        let n = base.unicode_len();
        if base.get_char(n - 1) != '/' {
            res.append("/");
            proof {
                reveal_strlit("/");
            }
        }
    }
    res.append(comp);
    res
}

/// The views of a sequence of strings.
pub open spec fn str_views(v: Seq<String>) -> Seq<Seq<char>> {
    v.map_values(|s: String| s@)
}

/// `base` joined with each of `comps` in turn.
pub fn join_many(base: &str, comps: &Vec<String>) -> (res: String)
    ensures
        res@ == path_join_all(base@, str_views(comps@)),
{
    let mut res = String::from_str(base);
    let mut i: usize = 0;
    while i < comps.len()
        invariant
            i <= comps.len(),
            res@ == path_join_all(base@, str_views(comps@.take(i as int))),
        decreases comps.len() - i,
    {
        let next = join_path(res.as_str(), comps[i].as_str());
        proof {
            let t = str_views(comps@.take(i + 1));
            assert(t.drop_last() =~= str_views(comps@.take(i as int)));
            assert(t.last() == comps@[i as int]@);
        }
        res = next;
        i = i + 1;
    }
    assert(comps@.take(comps.len() as int) =~= comps@);
    res
}

/// The directory that `setup` writes the configuration to: `path` when one
/// was given, the working directory `cwd` otherwise.
pub fn setup_config_path(path: &str, cwd: &str) -> (res: String)
    ensures
        res@ == if path@.len() == 0 {
            cwd@
        } else {
            path@
        },
{
    if path.is_empty() {
        String::from_str(cwd)
    } else {
        String::from_str(path)
    }
}

/// Where a job runs: the Delivery server, enterprise, organization, project
/// and pipeline, and the stage and phase of the job.
#[derive(Debug, Clone)]
pub struct JobCoordinates {
    pub server: String,
    pub enterprise: String,
    pub organization: String,
    pub project: String,
    pub pipeline: String,
    pub stage: String,
    pub phase: String,
}

/// The coordinates of a job in the order in which they name its workspace.
pub open spec fn coordinate_components(c: JobCoordinates) -> Seq<Seq<char>> {
    seq![
        c.server@,
        c.enterprise@,
        c.organization@,
        c.project@,
        c.pipeline@,
        c.stage@,
        c.phase@,
    ]
}

/// The root under which a privileged process keeps job workspaces.
pub open spec fn privileged_workspace_root() -> Seq<char> {
    "/var/opt/delivery/workspace"@
}

/// The job root that `delivery job` uses: the given `job_root` when it is not
/// empty; for a privileged process the workspace root joined with the job's
/// coordinates; otherwise `.delivery` in the home directory joined with them.
/// Without a given root, an unprivileged process with no home directory gets
/// `NoHomedir`.
pub open spec fn job_root_spec(
    job_root: Seq<char>,
    privileged: bool,
    home: Option<Seq<char>>,
    coords: JobCoordinates,
) -> Result<Seq<char>, Kind> {
    if job_root.len() > 0 {
        Ok(job_root)
    } else if privileged {
        Ok(path_join_all(privileged_workspace_root(), coordinate_components(coords)))
    } else {
        match home {
            Some(h) => Ok(path_join_all(h, seq![".delivery"@] + coordinate_components(coords))),
            None => Err(Kind::NoHomedir),
        }
    }
}

/// The view of an optional string slice.
pub open spec fn opt_str(s: Option<&str>) -> Option<Seq<char>> {
    match s {
        Some(t) => Some(t@),
        None => None,
    }
}

fn coordinates_vec(coords: &JobCoordinates) -> (res: Vec<String>)
    ensures
        str_views(res@) == coordinate_components(*coords),
{
    let mut v: Vec<String> = Vec::new();
    v.push(coords.server.clone());
    v.push(coords.enterprise.clone());
    v.push(coords.organization.clone());
    v.push(coords.project.clone());
    v.push(coords.pipeline.clone());
    v.push(coords.stage.clone());
    v.push(coords.phase.clone());
    assert(str_views(v@) =~= coordinate_components(*coords));
    v
}

/// The job root of a job (see `job_root_spec`). `privileged` tells whether
/// the process runs as root, `home` is the home directory if one is known.
pub fn job_root_path(
    job_root: &str,
    privileged: bool,
    home: Option<&str>,
    coords: &JobCoordinates,
) -> (res: Result<String, DeliveryError>)
    ensures
        match job_root_spec(job_root@, privileged, opt_str(home), *coords) {
            Ok(p) => res matches Ok(r) && r@ == p,
            Err(k) => res matches Err(e) && e.kind == k && e.detail is None,
        },
{
    if !job_root.is_empty() {
        return Ok(String::from_str(job_root));
    }
    if privileged {
        let comps = coordinates_vec(coords);
        return Ok(join_many("/var/opt/delivery/workspace", &comps));
    }
    match home {
        Some(h) => {
            let mut comps: Vec<String> = Vec::new();
            comps.push(String::from_str(".delivery"));
            let mut rest = coordinates_vec(coords);
            comps.append(&mut rest);
            assert(str_views(comps@) =~= seq![".delivery"@] + coordinate_components(*coords));
            Ok(join_many(h, &comps))
        },
        None => Err(DeliveryError::new(Kind::NoHomedir)),
    }
}

} // verus!

verus! {

/// Whether a path component is absolute.
pub open spec fn is_absolute(comp: Seq<char>) -> bool {
    comp.len() > 0 && comp[0] == '/'
}

/// Joining relative components to `base` only extends it: the result
/// starts with `base`.
pub proof fn lemma_join_all_extends_base(base: Seq<char>, comps: Seq<Seq<char>>)
    requires
        forall|i: int| 0 <= i < comps.len() ==> !is_absolute(#[trigger] comps[i]),
    ensures
        base.is_prefix_of(path_join_all(base, comps)),
    decreases comps.len(),
{
    if comps.len() > 0 {
        let init = comps.drop_last();
        assert forall|i: int| 0 <= i < init.len() implies !is_absolute(#[trigger] init[i]) by {
            assert(init[i] == comps[i]);
        }
        lemma_join_all_extends_base(base, init);
        let p = path_join_all(base, init);
        assert(!is_absolute(comps[comps.len() - 1]));
        let q = path_join(p, comps.last());
        assert(p.is_prefix_of(q)) by {
            if p.len() > 0 && p.last() != '/' {
                assert((p + seq!['/'] + comps.last()).subrange(0, p.len() as int) =~= p);
            } else {
                assert((p + comps.last()).subrange(0, p.len() as int) =~= p);
            }
        }
        assert(base.is_prefix_of(q)) by {
            assert forall|i: int| 0 <= i < base.len() implies base[i] == q[i] by {
                assert(base[i] == p[i]);
                assert(p[i] == q[i]);
            }
        }
    }
}

/// An absolute component replaces all that comes before it.
pub proof fn lemma_absolute_component_replaces(base: Seq<char>, comp: Seq<char>)
    requires
        is_absolute(comp),
    ensures
        path_join(base, comp) == comp,
{
}

/// A privileged job whose coordinates are all relative gets a workspace under
/// `/var/opt/delivery/workspace`; an unprivileged one gets one under its home
/// directory; a given job root is used as it is.
pub proof fn lemma_job_root_location(
    job_root: Seq<char>,
    privileged: bool,
    home: Option<Seq<char>>,
    coords: JobCoordinates,
)
    requires
        forall|i: int|
            0 <= i < coordinate_components(coords).len() ==> !is_absolute(
                #[trigger] coordinate_components(coords)[i],
            ),
    ensures
        job_root.len() > 0 ==> job_root_spec(job_root, privileged, home, coords) == Ok::<
            Seq<char>,
            Kind,
        >(job_root),
        job_root.len() == 0 && privileged ==> (job_root_spec(job_root, privileged, home, coords) matches Ok(
            p,
        ) && privileged_workspace_root().is_prefix_of(p)),
        job_root.len() == 0 && !privileged && home is Some ==> (job_root_spec(
            job_root,
            privileged,
            home,
            coords,
        ) matches Ok(p) && home->0.is_prefix_of(p)),
        job_root.len() == 0 && !privileged && home is None ==> job_root_spec(
            job_root,
            privileged,
            home,
            coords,
        ) == Err::<Seq<char>, Kind>(Kind::NoHomedir),
{
    let comps = coordinate_components(coords);
    lemma_join_all_extends_base(privileged_workspace_root(), comps);
    if let Some(h) = home {
        let all = seq![".delivery"@] + comps;
        assert forall|i: int| 0 <= i < all.len() implies !is_absolute(#[trigger] all[i]) by {
            if i == 0 {
                reveal_strlit(".delivery");
            } else {
                assert(all[i] == comps[i - 1]);
            }
        }
        lemma_join_all_extends_base(h, all);
    }
}

/// A path component that joins plainly: not empty, and neither starting nor
/// ending with `/`.
pub open spec fn plain_component(c: Seq<char>) -> bool {
    c.len() > 0 && c[0] != '/' && c.last() != '/'
}

/// `base` followed by each of `comps`, each after one `/`.
spec fn slashed(base: Seq<char>, comps: Seq<Seq<char>>) -> Seq<char>
    decreases comps.len(),
{
    if comps.len() == 0 {
        base
    } else {
        slashed(base, comps.drop_last()) + seq!['/'] + comps.last()
    }
}

proof fn lemma_join_plain(base: Seq<char>, comps: Seq<Seq<char>>)
    requires
        base.len() > 0,
        base.last() != '/',
        forall|i: int| 0 <= i < comps.len() ==> plain_component(#[trigger] comps[i]),
    ensures
        path_join_all(base, comps) == slashed(base, comps),
        slashed(base, comps).len() > 0,
        slashed(base, comps).last() != '/',
    decreases comps.len(),
{
    if comps.len() > 0 {
        let init = comps.drop_last();
        assert forall|i: int| 0 <= i < init.len() implies plain_component(#[trigger] init[i]) by {
            assert(init[i] == comps[i]);
        }
        lemma_join_plain(base, init);
        assert(plain_component(comps[comps.len() - 1]));
        let c = comps.last();
        let r = slashed(base, init) + seq!['/'] + c;
        assert(r.last() == c.last());
    }
}

/// A job's workspace holds all seven coordinates, in order, one directory
/// each, whatever their text (so long as none is empty or starts or ends
/// with `/`): without a given job root, an unprivileged job with home `h`
/// works in `h/.delivery/server/enterprise/organization/project/pipeline/
/// stage/phase`, a privileged one in the same under
/// `/var/opt/delivery/workspace`; a given root is used as it is.
pub proof fn lemma_job_root_holds_coordinates(
    job_root: Seq<char>,
    h: Seq<char>,
    home: Option<Seq<char>>,
    c: JobCoordinates,
)
    requires
        h.len() > 0,
        h.last() != '/',
        plain_component(c.server@),
        plain_component(c.enterprise@),
        plain_component(c.organization@),
        plain_component(c.project@),
        plain_component(c.pipeline@),
        plain_component(c.stage@),
        plain_component(c.phase@),
    ensures
        ({
            let tail = seq!['/'] + c.server@ + seq!['/'] + c.enterprise@ + seq!['/']
                + c.organization@ + seq!['/'] + c.project@ + seq!['/'] + c.pipeline@ + seq!['/']
                + c.stage@ + seq!['/'] + c.phase@;
            &&& job_root_spec(Seq::empty(), false, Some(h), c) == Ok::<Seq<char>, Kind>(
                h + seq!['/', '.', 'd', 'e', 'l', 'i', 'v', 'e', 'r', 'y'] + tail,
            )
            &&& job_root_spec(Seq::empty(), true, home, c) == Ok::<Seq<char>, Kind>(
                "/var/opt/delivery/workspace"@ + tail,
            )
            &&& job_root.len() > 0 ==> job_root_spec(job_root, true, home, c) == Ok::<
                Seq<char>,
                Kind,
            >(job_root)
            &&& job_root.len() > 0 ==> job_root_spec(job_root, false, home, c) == Ok::<
                Seq<char>,
                Kind,
            >(job_root)
        }),
{
    reveal_strlit(".delivery");
    reveal_strlit("/var/opt/delivery/workspace");
    let cc = coordinate_components(c);
    assert forall|i: int| 0 <= i < cc.len() implies plain_component(#[trigger] cc[i]) by {}
    let all = seq![".delivery"@] + cc;
    assert forall|i: int| 0 <= i < all.len() implies plain_component(#[trigger] all[i]) by {
        if i > 0 {
            assert(all[i] == cc[i - 1]);
        }
    }
    lemma_join_plain(h, all);
    lemma_join_plain(privileged_workspace_root(), cc);
    reveal_with_fuel(slashed, 9);
    let tail = seq!['/'] + c.server@ + seq!['/'] + c.enterprise@ + seq!['/'] + c.organization@
        + seq!['/'] + c.project@ + seq!['/'] + c.pipeline@ + seq!['/'] + c.stage@ + seq!['/']
        + c.phase@;
    assert(all.drop_last().drop_last().drop_last().drop_last().drop_last().drop_last().drop_last()
        =~= seq![".delivery"@]);
    assert(slashed(h, all) =~= h + seq!['/', '.', 'd', 'e', 'l', 'i', 'v', 'e', 'r', 'y'] + tail);
    assert(slashed(privileged_workspace_root(), cc) =~= "/var/opt/delivery/workspace"@ + tail);
}

} // verus!
