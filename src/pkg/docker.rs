//! Container-stack manager: `docker compose` commands per compose directory
//! and the reading of their output.

use vstd::prelude::*;
use crate::error::{ExecError, PackageError, exec_error_text};
use crate::exec::CommandResult;
use crate::pkg::{UpdateResult, UpgradablePackage, PackageManagerType, execution_error};
use crate::orchestrator::texts;
use crate::inventory::query::{join, join_strings, texts_of};
use crate::text::{
    chars_of,
    contains,
    line_bounds,
    lines,
    matches_at,
    occurs_at,
    pieces,
    str_contains,
    trim,
    trimmed,
};

verus! {

/// The compose file of a directory.
pub open spec fn compose_file(dir: Seq<char>) -> Seq<char> {
    dir + "/docker-compose.yml"@
}

/// A compose command on the file of `dir`.
pub open spec fn compose_text(use_v2: bool, dir: Seq<char>, args: Seq<char>) -> Seq<char> {
    (if use_v2 {
        "docker compose"@
    } else {
        "docker-compose"@
    }) + " -f "@ + compose_file(dir) + " "@ + args
}

/// The service names in `config --services` output: its lines, trimmed,
/// without the empty ones.
pub open spec fn service_names(ls: Seq<Seq<char>>) -> Seq<Seq<char>>
    decreases ls.len(),
{
    if ls.len() == 0 {
        Seq::empty()
    } else {
        let rest = service_names(ls.drop_last());
        if trim(ls.last()).len() == 0 {
            rest
        } else {
            rest.push(trim(ls.last()))
        }
    }
}

/// Number of non-overlapping occurrences of `n` in `h` from `i` on, read
/// left to right.
pub open spec fn occurrences_from(h: Seq<char>, n: Seq<char>, i: int) -> nat
    decreases h.len() - i,
{
    if n.len() == 0 || i < 0 || i + n.len() > h.len() {
        0
    } else if occurs_at(h, n, i) {
        1 + occurrences_from(h, n, i + n.len())
    } else {
        occurrences_from(h, n, i + 1)
    }
}

/// Container-stack manager over a non-empty list of compose directories.
#[derive(Debug, Clone, PartialEq, Eq)]
pub struct DockerComposeManager {
    /// Directories holding a `docker-compose.yml`.
    pub compose_dirs: Vec<String>,
    /// Use `docker compose` (v2) rather than `docker-compose` (v1).
    pub use_v2: bool,
    /// Pull images before recreating containers.
    pub pull_before_update: bool,
}

impl DockerComposeManager {
    /// A manager over `compose_dirs`, using `docker compose` and pulling
    /// before updates. An empty list is a configuration error.
    pub fn new(compose_dirs: Vec<String>) -> (r: Result<Self, PackageError>)
        ensures
            compose_dirs@.len() == 0 ==> (r matches Err(PackageError::ConfigError(m))
                && m@ == "no compose directories specified"@),
            compose_dirs@.len() > 0 ==> r == Ok::<Self, PackageError>(
                DockerComposeManager { compose_dirs, use_v2: true, pull_before_update: true },
            ),
    {
        if compose_dirs.len() == 0 {
            return Err(PackageError::ConfigError(String::from_str("no compose directories specified")));
        }
        Ok(DockerComposeManager { compose_dirs, use_v2: true, pull_before_update: true })
    }

    /// The manager family.
    pub fn manager_type(&self) -> (r: PackageManagerType)
        ensures
            r == PackageManagerType::DockerCompose,
    {
        PackageManagerType::DockerCompose
    }

    /// Picks the compose flavour from the probes: `docker compose` when
    /// docker is installed and `docker compose version` succeeds, else
    /// `docker-compose` when installed; neither is an error.
    pub fn detect_version(&mut self, has_docker: bool, v2_works: bool, has_v1: bool) -> (r: Result<
        (),
        PackageError,
    >)
        ensures
            final(self).compose_dirs == old(self).compose_dirs,
            final(self).pull_before_update == old(self).pull_before_update,
            has_docker && v2_works ==> r is Ok && final(self).use_v2,
            !(has_docker && v2_works) && has_v1 ==> r is Ok && !final(self).use_v2,
            !(has_docker && v2_works) && !has_v1 ==> r == Err::<(), PackageError>(
                PackageError::DockerComposeNotFound,
            ) && *final(self) == *old(self),
    {
        if has_docker && v2_works {
            self.use_v2 = true;
            return Ok(());
        }
        if has_v1 {
            self.use_v2 = false;
            return Ok(());
        }
        Err(PackageError::DockerComposeNotFound)
    }

    /// A compose command with `args` on the file of `compose_dir`.
    pub fn compose_cmd(&self, compose_dir: &str, args: &str) -> (r: String)
        ensures
            r@ == compose_text(self.use_v2, compose_dir@, args@),
    {
        let cmd = if self.use_v2 {
            "docker compose"
        } else {
            "docker-compose"
        };
        String::from_str(cmd).concat(" -f ").concat(compose_dir).concat("/docker-compose.yml").concat(
            " ",
        ).concat(args)
    }

    /// The command whose success means `compose_dir` holds a compose file.
    pub fn file_check_command(&self, compose_dir: &str) -> (r: String)
        ensures
            r@ == "test -f "@ + compose_file(compose_dir@),
    {
        String::from_str("test -f ").concat(compose_dir).concat("/docker-compose.yml")
    }

    /// The command that lists the services of a stack.
    pub fn services_command(&self, compose_dir: &str) -> (r: String)
        ensures
            r@ == compose_text(self.use_v2, compose_dir@, "config --services"@),
    {
        self.compose_cmd(compose_dir, "config --services")
    }

    /// The command that lists the running container of a service.
    pub fn container_command(&self, compose_dir: &str, service: &str) -> (r: String)
        ensures
            r@ == "docker compose -f "@ + compose_file(compose_dir@) + " ps -q "@ + service@,
    {
        String::from_str("docker compose -f ").concat(compose_dir).concat("/docker-compose.yml").concat(
            " ps -q ",
        ).concat(service)
    }

    /// The command that checks whether a newer image of a service exists.
    pub fn pull_check_command(&self, compose_dir: &str, service: &str) -> (r: String)
        ensures
            r@ == "docker compose -f "@ + compose_file(compose_dir@) + " pull --dry-run "@
                + service@ + " 2>&1 || true"@,
    {
        String::from_str("docker compose -f ").concat(compose_dir).concat("/docker-compose.yml").concat(
            " pull --dry-run ",
        ).concat(service).concat(" 2>&1 || true")
    }

    /// The command that pulls the images of a stack.
    pub fn pull_command(&self, compose_dir: &str) -> (r: String)
        ensures
            r@ == compose_text(self.use_v2, compose_dir@, "pull"@),
    {
        self.compose_cmd(compose_dir, "pull")
    }

    /// The command that recreates the containers of a stack.
    pub fn up_command(&self, compose_dir: &str) -> (r: String)
        ensures
            r@ == compose_text(self.use_v2, compose_dir@, "up -d --force-recreate"@),
    {
        self.compose_cmd(compose_dir, "up -d --force-recreate")
    }

    /// The command that lists the containers of a stack.
    pub fn ps_command(&self, compose_dir: &str) -> (r: String)
        ensures
            r@ == compose_text(self.use_v2, compose_dir@, "ps -q"@),
    {
        self.compose_cmd(compose_dir, "ps -q")
    }

    /// The command that shows which images a pull would fetch.
    pub fn pull_dry_run_command(&self, compose_dir: &str) -> (r: String)
        ensures
            r@ == compose_text(self.use_v2, compose_dir@, "pull --dry-run"@),
    {
        self.compose_cmd(compose_dir, "pull --dry-run")
    }

    /// Container stacks never require a host reboot.
    pub fn reboot_required(&self) -> (r: bool)
        ensures
            !r,
    {
        false
    }
}

fn piece(s: &str, a: usize, b: usize) -> (r: String)
    requires
        a <= b <= s@.len(),
    ensures
        r@ == s@.subrange(a as int, b as int),
{
    String::from_str(s.substring_char(a, b))
}

/// The service names listed by `config --services`.
pub fn services_from(stdout: &str) -> (r: Vec<String>)
    ensures
        texts(r@) == service_names(lines(stdout@)),
{
    let v = chars_of(stdout);
    let lb = line_bounds(&v, 0, v.len());
    let ghost ls = lines(stdout@);
    proof {
        assert(v@.subrange(0, v@.len() as int) =~= v@);
    }
    let mut out: Vec<String> = Vec::new();
    let mut k: usize = 0;
    while k < lb.len()
        invariant
            v@ == stdout@,
            ls == lines(stdout@),
            pieces(v@, lb@) == ls,
            crate::text::bounded(lb@, 0, v@.len() as int),
            k <= lb@.len(),
            texts(out@) == service_names(ls.take(k as int)),
        decreases lb@.len() - k,
    {
        let (a, b) = lb[k];
        proof {
            assert(pieces(v@, lb@)[k as int] == v@.subrange(a as int, b as int));
            assert(ls.take(k + 1).drop_last() =~= ls.take(k as int));
            assert(ls.take(k + 1).last() == ls[k as int]);
        }
        let line = piece(stdout, a, b);
        let t = trimmed(line.as_str());
        if t.unicode_len() > 0 {
            let ghost before = out@;
            out.push(t);
            proof {
                assert(texts(out@) =~= texts(before).push(trim(ls[k as int])));
            }
        }
        k = k + 1;
    }
    proof {
        assert(ls.take(lb@.len() as int) =~= ls);
    }
    out
}

/// The entry for a service with a newer image: named `dir/service`, from
/// `current` to `available`.
pub fn service_package(compose_dir: &str, service: &str) -> (r: UpgradablePackage)
    ensures
        r.name@ == compose_dir@ + "/"@ + service@,
        r.current_version@ == "current"@,
        r.new_version@ == "available"@,
        r.arch is None,
        r.repository is None,
{
    UpgradablePackage::new(
        String::from_str(compose_dir).concat("/").concat(service),
        String::from_str("current"),
        String::from_str("available"),
    )
}

/// Number of containers listed by `ps -q` (its lines), saturating.
pub fn container_count(run: &Result<CommandResult, ExecError>) -> (r: Result<u32, PackageError>)
    ensures
        match run {
            Err(e) => r matches Err(PackageError::ExecutionError(m)) && m@ == exec_error_text(*e),
            Ok(c) => r == Ok::<u32, PackageError>(
                if c.status == 0 {
                    crate::pkg::dnf::saturate(lines(c.stdout@).len())
                } else {
                    0u32
                },
            ),
        },
{
    match run {
        Err(e) => Err(execution_error(e)),
        Ok(c) => {
            if c.success() {
                let v = chars_of(c.stdout.as_str());
                let lb = line_bounds(&v, 0, v.len());
                proof {
                    assert(v@.subrange(0, v@.len() as int) =~= v@);
                }
                let n = lb.len();
                if n > 4294967295usize {
                    Ok(u32::MAX)
                } else {
                    Ok(n as u32)
                }
            } else {
                Ok(0)
            }
        },
    }
}

/// Number of images that a simulated pull would fetch: the occurrences of
/// `Pulling` in its output, when it succeeded (saturating).
pub fn pulling_count(run: &Result<CommandResult, ExecError>) -> (r: Result<u32, PackageError>)
    ensures
        match run {
            Err(e) => r matches Err(PackageError::ExecutionError(m)) && m@ == exec_error_text(*e),
            Ok(c) => r == Ok::<u32, PackageError>(
                if c.status == 0 {
                    crate::pkg::dnf::saturate(occurrences_from(c.stdout@, "Pulling"@, 0))
                } else {
                    0u32
                },
            ),
        },
{
    match run {
        Err(e) => Err(execution_error(e)),
        Ok(c) => {
            if !c.success() {
                return Ok(0);
            }
            let h = chars_of(c.stdout.as_str());
            let n = chars_of("Pulling");
            proof {
                reveal_strlit("Pulling");
            }
            let mut i: usize = 0;
            let mut count: u32 = 0;
            let ghost total = occurrences_from(h@, n@, 0);
            while i <= h.len() && h.len() - i >= n.len()
                invariant
                    n@ == "Pulling"@,
                    n@.len() == 7,
                    i <= h@.len() + 7,
                    total == occurrences_from(h@, n@, 0),
                    count == crate::pkg::dnf::saturate(
                        (total - occurrences_from(h@, n@, i as int)) as nat,
                    ),
                    occurrences_from(h@, n@, i as int) <= total,
                decreases h@.len() + 7 - i,
            {
                if matches_at(&h, &n, i) {
                    if count < u32::MAX {
                        count = count + 1;
                    }
                    i = i + n.len();
                } else {
                    i = i + 1;
                }
            }
            Ok(count)
        },
    }
}

/// The result of updating all stacks: `total` containers recreated and the
/// per-stack errors, joined with `; `; any error makes it a failure.
pub fn upgrade_summary(total: u32, errors: &Vec<String>) -> (r: UpdateResult)
    ensures
        r.success == (errors@.len() == 0),
        r.upgraded_count == total,
        r.new_count == 0,
        r.removed_count == 0,
        !r.reboot_required,
        r.upgraded_packages@.len() == 0,
        errors@.len() == 0 ==> r.error is None,
        errors@.len() > 0 ==> r.error is Some && r.error->0@ == join(texts_of(errors@), "; "@),
{
    let mut r = UpdateResult::success(total);
    if errors.len() > 0 {
        r.success = false;
        r.error = Some(join_strings(errors, "; "));
    }
    r
}

/// The error recorded for a stack whose step failed: `dir: what`.
pub fn stack_error(compose_dir: &str, what: &str) -> (r: String)
    ensures
        r@ == compose_dir@ + ": "@ + what@,
{
    String::from_str(compose_dir).concat(": ").concat(what)
}

/// Step of a stack scan: which command runs next.
#[derive(Debug, Clone, Copy, PartialEq, Eq, Structural)]
pub enum ScanPhase {
    /// Check that the current directory holds a compose file.
    FileCheck,
    /// List the services of the current stack.
    Services,
    /// Check that the current service has a container.
    Container,
    /// Check whether the current service has a newer image.
    PullCheck,
    /// Every directory has been scanned.
    Finished,
}

/// Search of the stacks for services with newer images. The caller runs
/// `command()` and hands its outcome to `advance` until the scan is
/// finished or fails.
#[derive(Debug, Clone)]
pub struct UpgradableScan {
    /// The manager whose directories are scanned.
    pub manager: DockerComposeManager,
    /// Index of the current directory.
    pub dir: usize,
    /// Next step.
    pub phase: ScanPhase,
    /// Services of the current stack.
    pub services: Vec<String>,
    /// Index of the current service.
    pub service: usize,
    /// Services found with a newer image.
    pub found: Vec<UpgradablePackage>,
}

/// The phase for directory `d` of `n`: a file check, or the end.
pub open spec fn dir_phase(d: int, n: int) -> ScanPhase {
    if d < n {
        ScanPhase::FileCheck
    } else {
        ScanPhase::Finished
    }
}

impl UpgradableScan {
    /// Positions are within the directories and services.
    pub open spec fn wf(&self) -> bool {
        &&& self.dir <= self.manager.compose_dirs@.len()
        &&& (self.phase == ScanPhase::Finished <==> self.dir == self.manager.compose_dirs@.len())
        &&& (self.phase == ScanPhase::Container || self.phase == ScanPhase::PullCheck)
            ==> self.service < self.services@.len()
    }

    /// Whether `self` moved on to the directory after the one of `old`,
    /// keeping what was found.
    pub open spec fn next_dir_of(&self, old: &UpgradableScan) -> bool {
        &&& self.manager == old.manager
        &&& self.dir == old.dir + 1
        &&& self.phase == dir_phase(self.dir as int, old.manager.compose_dirs@.len() as int)
        &&& self.found@ == old.found@
    }

    /// Whether `self` moved on to the service after the one of `old`, with
    /// `found` as the findings.
    pub open spec fn next_service_of(&self, old: &UpgradableScan, found: Seq<UpgradablePackage>) -> bool {
        if old.service + 1 < old.services@.len() {
            &&& self.manager == old.manager
            &&& self.dir == old.dir
            &&& self.phase == ScanPhase::Container
            &&& self.services@ == old.services@
            &&& self.service == old.service + 1
            &&& self.found@ == found
        } else {
            &&& self.manager == old.manager
            &&& self.dir == old.dir + 1
            &&& self.phase == dir_phase(self.dir as int, old.manager.compose_dirs@.len() as int)
            &&& self.found@ == found
        }
    }

    /// A scan of all directories of `manager`.
    pub fn new(manager: DockerComposeManager) -> (r: Self)
        ensures
            r.wf(),
            r.manager == manager,
            r.dir == 0,
            r.phase == dir_phase(0, manager.compose_dirs@.len() as int),
            r.found@.len() == 0,
    {
        let phase = if manager.compose_dirs.len() > 0 {
            ScanPhase::FileCheck
        } else {
            ScanPhase::Finished
        };
        UpgradableScan { manager, dir: 0, phase, services: Vec::new(), service: 0, found: Vec::new() }
    }

    /// Whether the scan is over.
    pub fn is_finished(&self) -> (r: bool)
        ensures
            r == (self.phase == ScanPhase::Finished),
    {
        self.phase == ScanPhase::Finished
    }

    /// The command of the next step.
    pub fn command(&self) -> (r: String)
        requires
            self.wf(),
            self.phase != ScanPhase::Finished,
        ensures
            ({
                let d = self.manager.compose_dirs@[self.dir as int]@;
                match self.phase {
                    ScanPhase::FileCheck => r@ == "test -f "@ + compose_file(d),
                    ScanPhase::Services => r@ == compose_text(
                        self.manager.use_v2,
                        d,
                        "config --services"@,
                    ),
                    ScanPhase::Container => r@ == "docker compose -f "@ + compose_file(d)
                        + " ps -q "@ + self.services@[self.service as int]@,
                    ScanPhase::PullCheck => r@ == "docker compose -f "@ + compose_file(d)
                        + " pull --dry-run "@ + self.services@[self.service as int]@
                        + " 2>&1 || true"@,
                    ScanPhase::Finished => false,
                }
            }),
    {
        let d = self.manager.compose_dirs[self.dir].as_str();
        match self.phase {
            ScanPhase::FileCheck => self.manager.file_check_command(d),
            ScanPhase::Services => self.manager.services_command(d),
            ScanPhase::Container => self.manager.container_command(d, self.services[self.service].as_str()),
            _ => self.manager.pull_check_command(d, self.services[self.service].as_str()),
        }
    }

    fn next_dir(&mut self)
        requires
            old(self).wf(),
            old(self).phase != ScanPhase::Finished,
        ensures
            final(self).wf(),
            final(self).next_dir_of(old(self)),
    {
        let n = self.manager.compose_dirs.len();
        self.dir = self.dir + 1;
        self.service = 0;
        self.services = Vec::new();
        self.phase = if self.dir < n {
            ScanPhase::FileCheck
        } else {
            ScanPhase::Finished
        };
    }

    fn next_service(&mut self)
        requires
            old(self).wf(),
            old(self).phase == ScanPhase::Container || old(self).phase == ScanPhase::PullCheck,
        ensures
            final(self).wf(),
            final(self).next_service_of(old(self), old(self).found@),
    {
        let n = self.services.len();
        if self.service + 1 < n {
            self.service = self.service + 1;
            self.phase = ScanPhase::Container;
        } else {
            self.next_dir();
        }
    }

    /// Takes the outcome of `command()`. A missing compose file or a failed
    /// service listing skips the stack; a service without a container is
    /// skipped; a service whose pull check reports a newer image is found.
    /// An executor failure ends the scan with an execution error.
    pub fn advance(&mut self, run: Result<CommandResult, ExecError>) -> (r: Result<(), PackageError>)
        requires
            old(self).wf(),
            old(self).phase != ScanPhase::Finished,
        ensures
            final(self).wf(),
            match run {
                Err(e) => r matches Err(PackageError::ExecutionError(m)) && m@ == exec_error_text(e),
                Ok(c) => r is Ok && match old(self).phase {
                    ScanPhase::FileCheck => if c.status == 0 {
                        &&& final(self).manager == old(self).manager
                        &&& final(self).dir == old(self).dir
                        &&& final(self).phase == ScanPhase::Services
                        &&& final(self).found@ == old(self).found@
                    } else {
                        final(self).next_dir_of(old(self))
                    },
                    ScanPhase::Services => if c.status == 0 && service_names(lines(c.stdout@)).len() > 0 {
                        &&& final(self).manager == old(self).manager
                        &&& final(self).dir == old(self).dir
                        &&& final(self).phase == ScanPhase::Container
                        &&& texts(final(self).services@) == service_names(lines(c.stdout@))
                        &&& final(self).service == 0
                        &&& final(self).found@ == old(self).found@
                    } else {
                        final(self).next_dir_of(old(self))
                    },
                    ScanPhase::Container => if c.status == 0 && trim(c.stdout@).len() > 0 {
                        &&& final(self).manager == old(self).manager
                        &&& final(self).dir == old(self).dir
                        &&& final(self).phase == ScanPhase::PullCheck
                        &&& final(self).services@ == old(self).services@
                        &&& final(self).service == old(self).service
                        &&& final(self).found@ == old(self).found@
                    } else {
                        final(self).next_service_of(old(self), old(self).found@)
                    },
                    ScanPhase::PullCheck => if contains(c.stdout@, "Downloaded newer image"@) {
                        exists|p: UpgradablePackage|
                            p.name@ == old(self).manager.compose_dirs@[old(self).dir as int]@ + "/"@
                                + old(self).services@[old(self).service as int]@
                                && p.current_version@ == "current"@ && p.new_version@ == "available"@
                                && final(self).next_service_of(old(self), old(self).found@.push(p))
                    } else {
                        final(self).next_service_of(old(self), old(self).found@)
                    },
                    ScanPhase::Finished => false,
                },
            },
    {
        let c = match run {
            Err(e) => {
                return Err(execution_error(&e));
            },
            Ok(c) => c,
        };
        match self.phase {
            ScanPhase::FileCheck => {
                if c.success() {
                    self.phase = ScanPhase::Services;
                } else {
                    self.next_dir();
                }
            },
            ScanPhase::Services => {
                let names = if c.success() {
                    services_from(c.stdout.as_str())
                } else {
                    Vec::new()
                };
                if c.success() && names.len() > 0 {
                    self.services = names;
                    self.service = 0;
                    self.phase = ScanPhase::Container;
                } else {
                    proof {
                        if c.status == 0 {
                            assert(texts(names@).len() == names@.len());
                        }
                    }
                    self.next_dir();
                }
            },
            ScanPhase::Container => {
                if c.success() && trimmed(c.stdout.as_str()).unicode_len() > 0 {
                    self.phase = ScanPhase::PullCheck;
                } else {
                    self.next_service();
                }
            },
            _ => {
                if str_contains(c.stdout.as_str(), "Downloaded newer image") {
                    let p = service_package(
                        self.manager.compose_dirs[self.dir].as_str(),
                        self.services[self.service].as_str(),
                    );
                    let ghost before = *self;
                    self.found.push(p);
                    let ghost mid = *self;
                    self.next_service();
                    proof {
                        assert(mid.found@ == before.found@.push(p));
                    }
                } else {
                    self.next_service();
                }
            },
        }
        Ok(())
    }
}

/// `a + b`, or the largest 32-bit value when the sum exceeds it.
pub open spec fn sat_add(a: u32, b: u32) -> u32 {
    if a + b > u32::MAX {
        u32::MAX
    } else {
        (a + b) as u32
    }
}

fn add_saturating(a: u32, b: u32) -> (r: u32)
    ensures
        r == sat_add(a, b),
{
    if a > u32::MAX - b {
        u32::MAX
    } else {
        a + b
    }
}

/// Step of a stack update: which command runs next.
#[derive(Debug, Clone, Copy, PartialEq, Eq, Structural)]
pub enum UpdatePhase {
    /// Check that the current directory holds a compose file.
    FileCheck,
    /// Pull the images of the current stack.
    Pull,
    /// Recreate the containers of the current stack.
    Up,
    /// Count the containers of the current stack.
    Count,
    /// Simulate the pull of the current stack.
    Preview,
    /// Every directory has been handled.
    Finished,
}

/// Update, or simulated update, of all stacks. The caller runs `command()`
/// and hands its outcome to `advance` until it is finished or fails, then
/// takes `result()`.
#[derive(Debug, Clone)]
pub struct StackUpdate {
    /// The manager whose stacks are updated.
    pub manager: DockerComposeManager,
    /// Only simulate the pulls.
    pub dry_run: bool,
    /// Index of the current directory.
    pub dir: usize,
    /// Next step.
    pub phase: UpdatePhase,
    /// Containers recreated, or images a pull would fetch (saturating).
    pub total: u32,
    /// Errors of the stacks that failed.
    pub errors: Vec<String>,
}

/// The phase for directory `d` of `n`: a file check, or the end.
pub open spec fn update_dir_phase(d: int, n: int) -> UpdatePhase {
    if d < n {
        UpdatePhase::FileCheck
    } else {
        UpdatePhase::Finished
    }
}

impl StackUpdate {
    /// The position is within the directories.
    pub open spec fn wf(&self) -> bool {
        &&& self.dir <= self.manager.compose_dirs@.len()
        &&& (self.phase == UpdatePhase::Finished <==> self.dir == self.manager.compose_dirs@.len())
    }

    /// Whether `self` moved on to the directory after the one of `old`, with
    /// `total` and `errors` as the accumulated results.
    pub open spec fn next_dir_of(&self, old: &StackUpdate, total: u32, errors: Seq<String>) -> bool {
        &&& self.manager == old.manager
        &&& self.dry_run == old.dry_run
        &&& self.dir == old.dir + 1
        &&& self.phase == update_dir_phase(self.dir as int, old.manager.compose_dirs@.len() as int)
        &&& self.total == total
        &&& self.errors@ == errors
    }

    /// Whether `self` is `old` at step `phase`.
    pub open spec fn same_dir_at(&self, old: &StackUpdate, phase: UpdatePhase) -> bool {
        &&& self.manager == old.manager
        &&& self.dry_run == old.dry_run
        &&& self.dir == old.dir
        &&& self.phase == phase
        &&& self.total == old.total
        &&& self.errors@ == old.errors@
    }

    /// An update (or, with `dry_run`, a simulation) of all stacks of
    /// `manager`.
    pub fn new(manager: DockerComposeManager, dry_run: bool) -> (r: Self)
        ensures
            r.wf(),
            r.manager == manager,
            r.dry_run == dry_run,
            r.dir == 0,
            r.phase == update_dir_phase(0, manager.compose_dirs@.len() as int),
            r.total == 0,
            r.errors@.len() == 0,
    {
        let phase = if manager.compose_dirs.len() > 0 {
            UpdatePhase::FileCheck
        } else {
            UpdatePhase::Finished
        };
        StackUpdate { manager, dry_run, dir: 0, phase, total: 0, errors: Vec::new() }
    }

    /// Whether every stack has been handled.
    pub fn is_finished(&self) -> (r: bool)
        ensures
            r == (self.phase == UpdatePhase::Finished),
    {
        self.phase == UpdatePhase::Finished
    }

    /// The command of the next step.
    pub fn command(&self) -> (r: String)
        requires
            self.wf(),
            self.phase != UpdatePhase::Finished,
        ensures
            ({
                let d = self.manager.compose_dirs@[self.dir as int]@;
                let v2 = self.manager.use_v2;
                match self.phase {
                    UpdatePhase::FileCheck => r@ == "test -f "@ + compose_file(d),
                    UpdatePhase::Pull => r@ == compose_text(v2, d, "pull"@),
                    UpdatePhase::Up => r@ == compose_text(v2, d, "up -d --force-recreate"@),
                    UpdatePhase::Count => r@ == compose_text(v2, d, "ps -q"@),
                    UpdatePhase::Preview => r@ == compose_text(v2, d, "pull --dry-run"@),
                    UpdatePhase::Finished => false,
                }
            }),
    {
        let d = self.manager.compose_dirs[self.dir].as_str();
        match self.phase {
            UpdatePhase::FileCheck => self.manager.file_check_command(d),
            UpdatePhase::Pull => self.manager.pull_command(d),
            UpdatePhase::Up => self.manager.up_command(d),
            UpdatePhase::Count => self.manager.ps_command(d),
            _ => self.manager.pull_dry_run_command(d),
        }
    }

    fn next_dir(&mut self)
        requires
            old(self).wf(),
            old(self).phase != UpdatePhase::Finished,
        ensures
            final(self).wf(),
            final(self).next_dir_of(old(self), old(self).total, old(self).errors@),
    {
        let n = self.manager.compose_dirs.len();
        self.dir = self.dir + 1;
        self.phase = if self.dir < n {
            UpdatePhase::FileCheck
        } else {
            UpdatePhase::Finished
        };
    }

    fn fail_stack(&mut self, what: &str)
        requires
            old(self).wf(),
            old(self).phase != UpdatePhase::Finished,
        ensures
            final(self).wf(),
            final(self).next_dir_of(
                old(self),
                old(self).total,
                old(self).errors@.push(final(self).errors@.last()),
            ),
            final(self).errors@.last()@ == old(self).manager.compose_dirs@[old(self).dir as int]@
                + ": "@ + what@,
    {
        let e = stack_error(self.manager.compose_dirs[self.dir].as_str(), what);
        self.errors.push(e);
        self.next_dir();
    }

    /// Takes the outcome of `command()`. A missing compose file skips the
    /// stack. A failed pull or recreation records `dir: pull failed` or
    /// `dir: up failed` and moves to the next stack; a successful
    /// recreation is followed by counting the containers. A simulation
    /// counts the images that a pull would fetch. An executor failure ends
    /// the update with an execution error.
    pub fn advance(&mut self, run: Result<CommandResult, ExecError>) -> (r: Result<(), PackageError>)
        requires
            old(self).wf(),
            old(self).phase != UpdatePhase::Finished,
        ensures
            final(self).wf(),
            match run {
                Err(e) => r matches Err(PackageError::ExecutionError(m)) && m@ == exec_error_text(e),
                Ok(c) => r is Ok && match old(self).phase {
                    UpdatePhase::FileCheck => if c.status != 0 {
                        final(self).next_dir_of(old(self), old(self).total, old(self).errors@)
                    } else if old(self).dry_run {
                        final(self).same_dir_at(old(self), UpdatePhase::Preview)
                    } else if old(self).manager.pull_before_update {
                        final(self).same_dir_at(old(self), UpdatePhase::Pull)
                    } else {
                        final(self).same_dir_at(old(self), UpdatePhase::Up)
                    },
                    UpdatePhase::Pull => if c.status == 0 {
                        final(self).same_dir_at(old(self), UpdatePhase::Up)
                    } else {
                        final(self).next_dir_of(
                            old(self),
                            old(self).total,
                            old(self).errors@.push(final(self).errors@.last()),
                        ) && final(self).errors@.last()@ == old(self).manager.compose_dirs@[old(
                            self,
                        ).dir as int]@ + ": "@ + "pull failed"@
                    },
                    UpdatePhase::Up => if c.status == 0 {
                        final(self).same_dir_at(old(self), UpdatePhase::Count)
                    } else {
                        final(self).next_dir_of(
                            old(self),
                            old(self).total,
                            old(self).errors@.push(final(self).errors@.last()),
                        ) && final(self).errors@.last()@ == old(self).manager.compose_dirs@[old(
                            self,
                        ).dir as int]@ + ": "@ + "up failed"@
                    },
                    UpdatePhase::Count => final(self).next_dir_of(
                        old(self),
                        sat_add(
                            old(self).total,
                            if c.status == 0 {
                                crate::pkg::dnf::saturate(lines(c.stdout@).len())
                            } else {
                                0u32
                            },
                        ),
                        old(self).errors@,
                    ),
                    UpdatePhase::Preview => final(self).next_dir_of(
                        old(self),
                        sat_add(
                            old(self).total,
                            if c.status == 0 {
                                crate::pkg::dnf::saturate(occurrences_from(c.stdout@, "Pulling"@, 0))
                            } else {
                                0u32
                            },
                        ),
                        old(self).errors@,
                    ),
                    UpdatePhase::Finished => false,
                },
            },
    {
        let run2 = match &run {
            Err(e) => {
                return Err(execution_error(e));
            },
            Ok(c) => c,
        };
        match self.phase {
            UpdatePhase::FileCheck => {
                if !run2.success() {
                    self.next_dir();
                } else if self.dry_run {
                    self.phase = UpdatePhase::Preview;
                } else if self.manager.pull_before_update {
                    self.phase = UpdatePhase::Pull;
                } else {
                    self.phase = UpdatePhase::Up;
                }
            },
            UpdatePhase::Pull => {
                if run2.success() {
                    self.phase = UpdatePhase::Up;
                } else {
                    self.fail_stack("pull failed");
                }
            },
            UpdatePhase::Up => {
                if run2.success() {
                    self.phase = UpdatePhase::Count;
                } else {
                    self.fail_stack("up failed");
                }
            },
            UpdatePhase::Count => {
                let n = match container_count(&run) {
                    Ok(n) => n,
                    Err(e) => {
                        return Err(e);
                    },
                };
                self.total = add_saturating(self.total, n);
                self.next_dir();
            },
            _ => {
                let n = match pulling_count(&run) {
                    Ok(n) => n,
                    Err(e) => {
                        return Err(e);
                    },
                };
                self.total = add_saturating(self.total, n);
                self.next_dir();
            },
        }
        Ok(())
    }

    /// The outcome once every stack has been handled: a simulation reports
    /// the images a pull would fetch; an update reports the recreated
    /// containers and fails when any stack failed.
    pub fn result(&self) -> (r: UpdateResult)
        ensures
            r.upgraded_count == self.total,
            self.dry_run ==> r.success && r.error is None,
            !self.dry_run ==> r.success == (self.errors@.len() == 0),
            !self.dry_run && self.errors@.len() > 0 ==> r.error is Some && r.error->0@ == join(
                texts_of(self.errors@),
                "; "@,
            ),
            !r.reboot_required,
    {
        if self.dry_run {
            UpdateResult::success(self.total)
        } else {
            upgrade_summary(self.total, &self.errors)
        }
    }
}

} // verus!
