//! The helper service: its status as reported, and where its executable is
//! looked for.

use vstd::prelude::*;
use vstd::string::*;
use crate::service::error::ServiceError;
use crate::text::lemma_push_deep_view;
use crate::service::ipc::{spawn_health_check, HealthMonitor, HealthMonitorView};

pub mod control;
pub mod error;
pub mod ipc;

verus! {

/// The operating systems whose escalation and install layout differ.
#[derive(Clone, Copy, Debug, PartialEq, Eq, Structural)]
pub enum Platform {
    Windows,
    Linux,
    MacOs,
}

/// What the helper says of itself. It is derived anew from every status query
/// and never stored.
#[derive(Clone, Copy, Debug, PartialEq, Eq, Structural)]
pub enum ServiceStatus {
    NotInstalled,
    Stopped,
    Running,
}

/// The part of the helper's server report that is read here.
#[derive(Clone, Debug, PartialEq, Eq)]
pub struct ServerInfo {
    pub version: String,
}

/// The value of one status query.
#[derive(Clone, Debug, PartialEq, Eq)]
pub struct StatusInfo {
    pub name: String,
    pub version: String,
    pub status: ServiceStatus,
    pub server: Option<ServerInfo>,
}

impl StatusInfo {
    /// The status that stands for an absent or unusable helper: no name, no
    /// version, no server, `NotInstalled`.
    pub open spec fn is_not_installed_placeholder(self) -> bool {
        &&& self.name@ == Seq::<char>::empty()
        &&& self.version@ == Seq::<char>::empty()
        &&& self.status == ServiceStatus::NotInstalled
        &&& self.server is None
    }

    pub fn not_installed() -> (info: StatusInfo)
        ensures
            info.is_not_installed_placeholder(),
    {
        StatusInfo {
            name: String::new(),
            version: String::new(),
            status: ServiceStatus::NotInstalled,
            server: None,
        }
    }
}

/// A location on disk: `root` followed by the components `parts`, joined by
/// the platform's separator.
#[derive(Clone, Debug, PartialEq, Eq)]
pub struct ServicePath {
    pub root: String,
    pub parts: Vec<String>,
}

pub struct ServicePathView {
    pub root: Seq<char>,
    pub parts: Seq<Seq<char>>,
}

impl DeepView for ServicePath {
    type V = ServicePathView;

    open spec fn deep_view(&self) -> ServicePathView {
        ServicePathView { root: self.root@, parts: self.parts.deep_view() }
    }
}

/// What the resolver reads of its surroundings. The caller fills it in; a
/// directory that cannot be determined is `None`.
#[derive(Clone, Debug, PartialEq, Eq)]
pub struct PathEnvironment {
    pub platform: Platform,
    /// The target triple the application was built for, if the build names one.
    pub target_triple: Option<String>,
    /// The directory that holds the running executable.
    pub exe_dir: Option<String>,
    /// The system's program directory (Windows).
    pub program_files: Option<String>,
    /// The directory the application is installed in.
    pub app_install_dir: Option<String>,
    /// The system's shared data directory (Windows).
    pub program_data: Option<String>,
}

pub open spec fn service_name() -> Seq<char> {
    "nyanpasu-service"@
}

/// The suffix the platform gives to executables.
pub open spec fn exe_suffix(platform: Platform) -> Seq<char> {
    if platform == Platform::Windows {
        ".exe"@
    } else {
        Seq::<char>::empty()
    }
}

/// The file names under which the helper may be found: the plain name, then
/// the name that carries the target triple.
pub open spec fn file_names(platform: Platform, triple: Option<Seq<char>>) -> Seq<Seq<char>> {
    let plain = service_name() + exe_suffix(platform);
    match triple {
        Some(t) => seq![plain, service_name() + "-"@ + t + exe_suffix(platform)],
        None => seq![plain],
    }
}

/// One candidate per file name, each under `root` and the directories `sub`.
pub open spec fn candidates_under(
    root: Seq<char>,
    sub: Seq<Seq<char>>,
    names: Seq<Seq<char>>,
) -> Seq<ServicePathView> {
    Seq::new(names.len(), |i: int| ServicePathView { root: root, parts: sub.push(names[i]) })
}

pub open spec fn candidates_in(
    dir: Option<Seq<char>>,
    sub: Seq<Seq<char>>,
    names: Seq<Seq<char>>,
) -> Seq<ServicePathView> {
    match dir {
        Some(root) => candidates_under(root, sub, names),
        None => Seq::empty(),
    }
}

pub open spec fn windows_only(platform: Platform, dir: Option<Seq<char>>) -> Option<Seq<char>> {
    if platform == Platform::Windows {
        dir
    } else {
        None
    }
}

/// The ordered candidate list: the `sidecar` directory beside the running
/// executable, that executable's own directory, the program directory
/// (Windows), the install directory's `sidecar`, the install directory, and
/// the installed service's data directory (Windows).
pub open spec fn path_candidates(env: PathEnvironment) -> Seq<ServicePathView> {
    let names = file_names(env.platform, env.target_triple.deep_view());
    candidates_in(env.exe_dir.deep_view(), seq!["sidecar"@], names)
        + candidates_in(env.exe_dir.deep_view(), Seq::empty(), names)
        + candidates_in(
        windows_only(env.platform, env.program_files.deep_view()),
        seq!["nyanpasu"@],
        names,
    ) + candidates_in(env.app_install_dir.deep_view(), seq!["sidecar"@], names)
        + candidates_in(env.app_install_dir.deep_view(), Seq::empty(), names)
        + candidates_in(
        windows_only(env.platform, env.program_data.deep_view()),
        seq!["nyanpasu-service"@, "data"@],
        names,
    )
}

/// The path returned when no candidate exists: the plain file name in `dir`.
pub open spec fn fallback_path(platform: Platform, dir: Seq<char>) -> ServicePathView {
    ServicePathView { root: dir, parts: seq![service_name() + exe_suffix(platform)] }
}

/// Whether the caller found a file at candidate `i`. A missing entry counts
/// as no file.
pub open spec fn exists_at(exists: Seq<bool>, i: int) -> bool {
    0 <= i < exists.len() && exists[i]
}

/// `i` is the first candidate at which a file exists.
pub open spec fn first_existing(count: int, exists: Seq<bool>, i: int) -> bool {
    &&& 0 <= i < count
    &&& exists_at(exists, i)
    &&& forall|j: int| 0 <= j < i ==> !exists_at(exists, j)
}

pub open spec fn none_existing(count: int, exists: Seq<bool>) -> bool {
    forall|j: int| 0 <= j < count ==> !exists_at(exists, j)
}

fn plain_file_name(platform: Platform) -> (name: String)
    ensures
        name@ == service_name() + exe_suffix(platform),
{
    let mut name = String::from_str("nyanpasu-service");
    match platform {
        Platform::Windows => {
            name.append(".exe");
        },
        _ => {
            assert(name@ + Seq::<char>::empty() =~= name@);
        },
    }
    name
}

/// The file names under which the helper's executable is looked for.
pub fn service_file_names(platform: Platform, target_triple: &Option<String>) -> (names: Vec<
    String,
>)
    ensures
        names.deep_view() == file_names(platform, target_triple.deep_view()),
{
    let mut names: Vec<String> = Vec::new();
    names.push(plain_file_name(platform));
    match target_triple {
        Some(triple) => {
            let mut name = String::from_str("nyanpasu-service");
            name.append("-");
            name.append(triple.as_str());
            match platform {
                Platform::Windows => {
                    name.append(".exe");
                },
                _ => {
                    assert(name@ + Seq::<char>::empty() =~= name@);
                },
            }
            names.push(name);
        },
        None => {},
    }
    assert(names.deep_view() =~= file_names(platform, target_triple.deep_view()));
    names
}

fn push_text(v: &mut Vec<String>, s: String)
    ensures
        final(v).deep_view() == old(v).deep_view().push(s@),
        final(v)@.len() == old(v)@.len() + 1,
{
    let ghost before = *v;
    v.push(s);
    proof {
        lemma_push_deep_view(before, *v, s);
    }
}

fn copy_text(s: &String) -> (out: String)
    ensures
        out@ == s@,
{
    s.clone()
}

fn push_candidates(
    out: &mut Vec<ServicePath>,
    dir: &Option<String>,
    sub: &Vec<String>,
    names: &Vec<String>,
)
    ensures
        final(out).deep_view() == old(out).deep_view() + candidates_in(
            dir.deep_view(),
            sub.deep_view(),
            names.deep_view(),
        ),
{
    match dir {
        None => {
            assert(final(out).deep_view() =~= old(out).deep_view() + Seq::<
                ServicePathView,
            >::empty());
        },
        Some(root) => {
            let ghost before = out.deep_view();
            let ghost wanted = candidates_under(root@, sub.deep_view(), names.deep_view());
            let mut i: usize = 0;
            while i < names.len()
                invariant
                    i <= names.len(),
                    wanted == candidates_under(root@, sub.deep_view(), names.deep_view()),
                    out.deep_view() =~= before + wanted.subrange(0, i as int),
                decreases names.len() - i,
            {
                let mut parts: Vec<String> = Vec::new();
                let mut k: usize = 0;
                while k < sub.len()
                    invariant
                        k <= sub.len(),
                        parts.deep_view() =~= sub.deep_view().subrange(0, k as int),
                    decreases sub.len() - k,
                {
                    push_text(&mut parts, copy_text(&sub[k]));
                    k += 1;
                }
                push_text(&mut parts, copy_text(&names[i]));
                assert(parts.deep_view() =~= sub.deep_view().push(names.deep_view()[i as int]));
                let candidate = ServicePath { root: copy_text(root), parts: parts };
                assert(candidate.deep_view() == wanted[i as int]);
                let ghost held = *out;
                out.push(candidate);
                proof {
                    lemma_push_deep_view(held, *out, candidate);
                }
                i += 1;
            }
            assert(wanted.subrange(0, names.len() as int) =~= wanted);
        },
    }
}

/// Every location at which the helper's executable may lie, most preferred
/// first.
pub fn get_service_path_candidates(env: &PathEnvironment) -> (candidates: Vec<ServicePath>)
    ensures
        candidates.deep_view() == path_candidates(*env),
{
    let names = service_file_names(env.platform, &env.target_triple);
    let mut sidecar: Vec<String> = Vec::new();
    sidecar.push(String::from_str("sidecar"));
    let same_dir: Vec<String> = Vec::new();
    let mut program: Vec<String> = Vec::new();
    program.push(String::from_str("nyanpasu"));
    let mut data: Vec<String> = Vec::new();
    data.push(String::from_str("nyanpasu-service"));
    data.push(String::from_str("data"));
    assert(sidecar.deep_view() =~= seq!["sidecar"@]);
    assert(same_dir.deep_view() =~= Seq::<Seq<char>>::empty());
    assert(program.deep_view() =~= seq!["nyanpasu"@]);
    assert(data.deep_view() =~= seq!["nyanpasu-service"@, "data"@]);
    let none: Option<String> = None;
    let windows = match env.platform {
        Platform::Windows => true,
        _ => false,
    };
    let mut out: Vec<ServicePath> = Vec::new();
    assert(out.deep_view() =~= Seq::<ServicePathView>::empty());
    push_candidates(&mut out, &env.exe_dir, &sidecar, &names);
    push_candidates(&mut out, &env.exe_dir, &same_dir, &names);
    if windows {
        push_candidates(&mut out, &env.program_files, &program, &names);
    } else {
        push_candidates(&mut out, &none, &program, &names);
    }
    push_candidates(&mut out, &env.app_install_dir, &sidecar, &names);
    push_candidates(&mut out, &env.app_install_dir, &same_dir, &names);
    if windows {
        push_candidates(&mut out, &env.program_data, &data, &names);
    } else {
        push_candidates(&mut out, &none, &data, &names);
    }
    assert(out.deep_view() =~= path_candidates(*env));
    out
}

fn fallback(platform: Platform, dir: &String) -> (path: ServicePath)
    ensures
        path.deep_view() == fallback_path(platform, dir@),
{
    let mut parts: Vec<String> = Vec::new();
    parts.push(plain_file_name(platform));
    assert(parts.deep_view() =~= seq![service_name() + exe_suffix(platform)]);
    ServicePath { root: copy_text(dir), parts: parts }
}

fn find_existing(env: &PathEnvironment, exists: &Vec<bool>) -> (found: Option<ServicePath>)
    ensures
        forall|i: int| #[trigger]
            first_existing(path_candidates(*env).len() as int, exists@, i) ==> (found matches Some(
                path,
            ) && path.deep_view() == path_candidates(*env)[i]),
        none_existing(path_candidates(*env).len() as int, exists@) <==> found is None,
{
    let mut candidates = get_service_path_candidates(env);
    let ghost all = candidates.deep_view();
    let mut i: usize = 0;
    while i < candidates.len()
        invariant
            i <= candidates.len(),
            candidates.deep_view() == all,
            all == path_candidates(*env),
            forall|j: int| 0 <= j < i ==> !exists_at(exists@, j),
        decreases candidates.len() - i,
    {
        if i < exists.len() && exists[i] {
            assert(first_existing(all.len() as int, exists@, i as int));
            assert forall|k: int| #[trigger]
                first_existing(all.len() as int, exists@, k) implies k == i by {
                if k < i {
                    assert(!exists_at(exists@, k));
                } else if k > i {
                    assert(!exists_at(exists@, i as int));
                }
            }
            let path = candidates.swap_remove(i);
            assert(path.deep_view() == all[i as int]);
            assert(!none_existing(all.len() as int, exists@));
            return Some(path);
        }
        i += 1;
    }
    assert(none_existing(all.len() as int, exists@));
    None
}

/// The location of the helper's executable: the first candidate at which a
/// file exists. `exists[i]` says whether the caller found a file at candidate
/// `i` of `get_service_path_candidates`. Where no candidate exists the result
/// is the plain file name in the install directory, whether or not a file is
/// there; callers check again before use.
pub fn get_service_path(env: &PathEnvironment, exists: &Vec<bool>) -> (found: Result<
    ServicePath,
    ServiceError,
>)
    ensures
        forall|i: int| #[trigger]
            first_existing(path_candidates(*env).len() as int, exists@, i) ==> (found matches Ok(
                path,
            ) && path.deep_view() == path_candidates(*env)[i]),
        none_existing(path_candidates(*env).len() as int, exists@) ==> (match env.app_install_dir {
            Some(dir) => found matches Ok(path) && path.deep_view() == fallback_path(
                env.platform,
                dir@,
            ),
            None => found == Err::<ServicePath, ServiceError>(ServiceError::InstallDirUnknown),
        }),
{
    match find_existing(env, exists) {
        Some(path) => Ok(path),
        None => match &env.app_install_dir {
            Some(dir) => Ok(fallback(env.platform, dir)),
            None => Err(ServiceError::InstallDirUnknown),
        },
    }
}

/// The helper's location for the life of the process: as `get_service_path`
/// gives it and, where the install directory is unknown, the plain file name
/// beside the running executable. `None` only where neither directory is
/// known and no candidate exists.
pub fn resolve_service_path(env: &PathEnvironment, exists: &Vec<bool>) -> (found: Option<
    ServicePath,
>)
    ensures
        forall|i: int| #[trigger]
            first_existing(path_candidates(*env).len() as int, exists@, i) ==> (found matches Some(
                path,
            ) && path.deep_view() == path_candidates(*env)[i]),
        none_existing(path_candidates(*env).len() as int, exists@) ==> (match (
            env.app_install_dir,
            env.exe_dir,
        ) {
            (Some(dir), _) => found matches Some(path) && path.deep_view() == fallback_path(
                env.platform,
                dir@,
            ),
            (None, Some(dir)) => found matches Some(path) && path.deep_view() == fallback_path(
                env.platform,
                dir@,
            ),
            (None, None) => found is None,
        }),
{
    match find_existing(env, exists) {
        Some(path) => Some(path),
        None => match &env.app_install_dir {
            Some(dir) => Some(fallback(env.platform, dir)),
            None => match &env.exe_dir {
                Some(dir) => Some(fallback(env.platform, dir)),
                None => None,
            },
        },
    }
}

/// Among the candidates exactly one of two holds: some candidate is the first
/// at which a file exists, or none exists.
pub proof fn lemma_first_or_none(count: int, exists: Seq<bool>)
    requires
        0 <= count,
    ensures
        none_existing(count, exists) || exists|i: int| #[trigger] first_existing(count, exists, i),
    decreases count,
{
    if count > 0 {
        lemma_first_or_none(count - 1, exists);
        if none_existing(count - 1, exists) {
            if exists_at(exists, count - 1) {
                assert(first_existing(count, exists, count - 1));
            } else {
                assert(none_existing(count, exists));
            }
        } else {
            let i = choose|i: int| #[trigger] first_existing(count - 1, exists, i);
            assert(first_existing(count, exists, i));
        }
    }
}

/// Whether the health-check loop is started when the application starts:
/// in service mode, with a helper that runs.
pub open spec fn starts_monitor(status: Result<StatusInfo, ServiceError>, service_mode: bool) -> bool {
    service_mode && (status matches Ok(info) && info.status == ServiceStatus::Running)
}

/// Prepares the service when the application starts. Where the result is
/// true the loop is marked as started and the caller runs it.
pub fn init_service(
    monitor: &mut HealthMonitor,
    status: &Result<StatusInfo, ServiceError>,
    service_mode: bool,
) -> (spawn: bool)
    ensures
        spawn == starts_monitor(*status, service_mode),
        final(monitor)@ == (if spawn {
            HealthMonitorView { kill_flag: false, running: true, check_count: 0, ..old(monitor)@ }
        } else {
            old(monitor)@
        }),
{
    let running = match status {
        Ok(info) => match info.status {
            ServiceStatus::Running => true,
            _ => false,
        },
        Err(_) => false,
    };
    if running && service_mode {
        spawn_health_check(monitor);
        true
    } else {
        false
    }
}

} // verus!
