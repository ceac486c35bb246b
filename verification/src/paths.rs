//! Resolution of the game installation directory and of the log file
//! locations beneath it.
//!
//! The filesystem and registry probes themselves happen at the
//! boundary that owns them; what is decided here is the ordered
//! choice among the probed candidates and the exact paths built from
//! the chosen directory.

use vstd::prelude::*;
use vstd::string::*;

verus! {

/// A candidate filesystem path together with the observed result of
/// its existence probe.
#[derive(Clone, Debug)]
pub struct ProbeResult {
    pub path: String,
    pub exists: bool,
}

/// View of one probe: the path and whether it exists.
pub open spec fn probe_view(p: ProbeResult) -> (Seq<char>, bool) {
    (p.path@, p.exists)
}

pub open spec fn opt_probe_view(p: Option<&ProbeResult>) -> Option<(Seq<char>, bool)> {
    match p {
        Some(q) => Some(probe_view(*q)),
        None => None,
    }
}

pub open spec fn probe_views(v: Seq<ProbeResult>) -> Seq<(Seq<char>, bool)> {
    v.map(|i: int, p: ProbeResult| probe_view(p))
}

/// The first candidate that exists, in order.
pub open spec fn first_existing_spec(c: Seq<(Seq<char>, bool)>) -> Option<Seq<char>>
    decreases c.len(),
{
    if c.len() == 0 {
        None
    } else if c[0].1 {
        Some(c[0].0)
    } else {
        first_existing_spec(c.drop_first())
    }
}

proof fn lemma_first_existing_step(c: Seq<(Seq<char>, bool)>, i: int)
    requires
        0 <= i <= c.len(),
        forall|k: int| 0 <= k < i ==> !c[k].1,
    ensures
        first_existing_spec(c) == first_existing_spec(c.skip(i)),
    decreases i,
{
    if i == 0 {
        assert(c.skip(0) =~= c);
    } else {
        lemma_first_existing_step(c, i - 1);
        assert(c.skip(i - 1).len() > 0 && !c.skip(i - 1)[0].1);
        assert(c.skip(i - 1).drop_first() =~= c.skip(i));
    }
}

/// The ordered probe after the explicit override: the registry
/// result when it exists, else the first existing common path.
pub open spec fn resolve_after_custom_spec(
    registry: Option<(Seq<char>, bool)>,
    common: Seq<(Seq<char>, bool)>,
) -> Option<Seq<char>> {
    match registry {
        Some(g) => if g.1 {
            Some(g.0)
        } else {
            first_existing_spec(common)
        },
        None => first_existing_spec(common),
    }
}

/// The whole ordered probe: a non-empty existing explicit override
/// wins, then the registry result, then the common paths in order.
pub open spec fn resolve_install_dir_spec(
    custom: Option<(Seq<char>, bool)>,
    registry: Option<(Seq<char>, bool)>,
    common: Seq<(Seq<char>, bool)>,
) -> Option<Seq<char>> {
    match custom {
        Some(c) => if c.0.len() > 0 && c.1 {
            Some(c.0)
        } else {
            resolve_after_custom_spec(registry, common)
        },
        None => resolve_after_custom_spec(registry, common),
    }
}

pub open spec fn opt_string_view(o: Option<String>) -> Option<Seq<char>> {
    match o {
        Some(s) => Some(s@),
        None => None,
    }
}

/// Chooses the installation directory by ordered probe: the explicit
/// override when non-empty and existing, else the registry result
/// when existing, else the first existing common install path, else
/// nothing.
pub fn find_diablo2_directory(
    custom: Option<&ProbeResult>,
    registry: Option<&ProbeResult>,
    common: &Vec<ProbeResult>,
) -> (r: Option<String>)
    ensures
        opt_string_view(r) == resolve_install_dir_spec(
            opt_probe_view(custom),
            opt_probe_view(registry),
            probe_views(common@),
        ),
{
    if let Some(c) = custom {
        if c.path.unicode_len() > 0 && c.exists {
            return Some(c.path.clone());
        }
    }
    if let Some(g) = registry {
        if g.exists {
            return Some(g.path.clone());
        }
    }
    let n = common.len();
    let mut i: usize = 0;
    while i < n
        invariant
            i <= n,
            n == common@.len(),
            forall|k: int| 0 <= k < i ==> !probe_views(common@)[k].1,
            resolve_install_dir_spec(
                opt_probe_view(custom),
                opt_probe_view(registry),
                probe_views(common@),
            ) == first_existing_spec(probe_views(common@)),
        decreases n - i,
    {
        if common[i].exists {
            proof {
                lemma_first_existing_step(probe_views(common@), i as int);
                let views = probe_views(common@);
                assert(views.skip(i as int).len() == n - i);
                assert(views.skip(i as int)[0] == views[i as int]);
                assert(views[i as int] == probe_view(common@[i as int]));
                assert(first_existing_spec(views.skip(i as int)) == Some(views[i as int].0));
            }
            return Some(common[i].path.clone());
        }
        i += 1;
    }
    proof {
        lemma_first_existing_step(probe_views(common@), n as int);
        assert(probe_views(common@).skip(n as int).len() == 0);
    }
    None
}

/// The ordered probe without an explicit override.
pub fn auto_detect_diablo2_directory(
    registry: Option<&ProbeResult>,
    common: &Vec<ProbeResult>,
) -> (r: Option<String>)
    ensures
        opt_string_view(r) == resolve_install_dir_spec(
            None,
            opt_probe_view(registry),
            probe_views(common@),
        ),
{
    find_diablo2_directory(None, registry, common)
}

/// The first existing of the fixed install locations, in probe
/// order: the resolution step that runs when neither an explicit
/// override nor a registry entry decides.
pub fn find_diablo2_install_path(common: &Vec<ProbeResult>) -> (r: Option<String>)
    ensures
        opt_string_view(r) == first_existing_spec(probe_views(common@)),
{
    find_diablo2_directory(None, None, common)
}

/// Location of the chat log beneath the installation directory.
pub fn get_chat_log_path(install_dir: &str) -> (r: String)
    ensures
        r@ == install_dir@ + "/ProjectD2/pd2logs/pd2_chat.log"@,
{
    let mut s = String::from_str(install_dir);
    s.append("/ProjectD2/pd2logs/pd2_chat.log");
    s
}

/// Location of the sibling game-event log beneath the installation
/// directory.
pub fn get_game_log_path(install_dir: &str) -> (r: String)
    ensures
        r@ == install_dir@ + "/ProjectD2/pd2logs/pd2_game.log"@,
{
    let mut s = String::from_str(install_dir);
    s.append("/ProjectD2/pd2logs/pd2_game.log");
    s
}

/// The common install locations beneath the user's home directory,
/// in probe order.
pub fn common_install_candidates(home: &str) -> (r: Vec<String>)
    ensures
        r@.len() == 3,
        r@[0]@ == home@ + "/Games/Diablo II"@,
        r@[1]@ == home@ + "/Games/project-diablo-2"@,
        r@[2]@ == home@ + "/.wine/drive_c/Program Files (x86)/Diablo II"@,
{
    let mut v: Vec<String> = Vec::new();
    let mut a = String::from_str(home);
    a.append("/Games/Diablo II");
    v.push(a);
    let mut b = String::from_str(home);
    b.append("/Games/project-diablo-2");
    v.push(b);
    let mut c = String::from_str(home);
    c.append("/.wine/drive_c/Program Files (x86)/Diablo II");
    v.push(c);
    v
}

} // verus!
