//! Debian-family package manager: `apt` commands and their output.

use vstd::prelude::*;
use crate::error::{ExecError, PackageError, exec_error_text};
use crate::exec::CommandResult;
use crate::pkg::{UpdateResult, UpgradablePackage, PackageManagerType, opt_text, execution_error};
use crate::text::{
    chars_of,
    contains,
    find_from,
    first_from,
    line_bounds,
    lines,
    parse_u32,
    parsed_u32,
    pieces,
    split,
    split_bounds,
    starts_with,
    str_contains,
    str_starts_with,
    trim,
    trim_bounds,
    word_bounds,
    words,
};

verus! {

/// The marker that precedes the installed version in `apt list` output.
pub open spec fn from_marker() -> Seq<char> {
    "[upgradable from: "@
}

/// The package described by one line of `apt list --upgradable`, as
/// (name, installed version, new version, architecture). Empty lines,
/// `Listing...` and `WARNING` lines, and lines of fewer than two words
/// describe none. The first word is `name/channel`; the installed version
/// stands between `[upgradable from: ` and the next `]`, else it is
/// `unknown`.
pub open spec fn apt_entry(l: Seq<char>) -> Option<
    (Seq<char>, Seq<char>, Seq<char>, Option<Seq<char>>),
> {
    let w = words(l);
    if l.len() == 0 || starts_with(l, "Listing"@) || starts_with(l, "WARNING"@) || w.len() < 2 {
        None
    } else {
        let na = w[0];
        let name = match first_from(na, seq!['/'], 0) {
            Some(k) => na.subrange(0, k),
            None => na,
        };
        let arch = match first_from(na, seq!['/'], 0) {
            Some(k) => Some(na.subrange(k + 1, na.len() as int)),
            None => None,
        };
        let current = match first_from(l, from_marker(), 0) {
            Some(p) => match first_from(l, seq![']'], p + from_marker().len()) {
                Some(e) => l.subrange(p + from_marker().len(), e),
                None => "unknown"@,
            },
            None => "unknown"@,
        };
        Some((name, current, w[1], arch))
    }
}

/// The packages described by a list of lines, in order.
pub open spec fn apt_entries(ls: Seq<Seq<char>>) -> Seq<
    (Seq<char>, Seq<char>, Seq<char>, Option<Seq<char>>),
>
    decreases ls.len(),
{
    if ls.len() == 0 {
        Seq::empty()
    } else {
        let rest = apt_entries(ls.drop_last());
        match apt_entry(ls.last()) {
            Some(e) => rest.push(e),
            None => rest,
        }
    }
}

/// Whether `p` is the package `e`, without repository.
pub open spec fn apt_package(
    p: UpgradablePackage,
    e: (Seq<char>, Seq<char>, Seq<char>, Option<Seq<char>>),
) -> bool {
    &&& p.name@ == e.0
    &&& p.current_version@ == e.1
    &&& p.new_version@ == e.2
    &&& opt_text(p.arch, e.3)
    &&& p.repository is None
}

/// The count that precedes `key` in one comma-separated part of the upgrade
/// summary, once the part is trimmed.
pub open spec fn count_before(part: Seq<char>, key: Seq<char>) -> Option<u32> {
    let p = trim(part);
    match first_from(p, key, 0) {
        Some(n) => parsed_u32(trim(p.subrange(0, n))),
        None => None,
    }
}

/// Counts (upgraded, newly installed, removed) after reading one part.
pub open spec fn apply_part(acc: (u32, u32, u32), part: Seq<char>) -> (u32, u32, u32) {
    (
        match count_before(part, " upgraded"@) {
            Some(n) => n,
            None => acc.0,
        },
        match count_before(part, " newly installed"@) {
            Some(n) => n,
            None => acc.1,
        },
        match count_before(part, " to remove"@) {
            Some(n) => n,
            None => acc.2,
        },
    )
}

/// Counts after reading the parts in order.
pub open spec fn apply_parts(acc: (u32, u32, u32), parts: Seq<Seq<char>>) -> (u32, u32, u32)
    decreases parts.len(),
{
    if parts.len() == 0 {
        acc
    } else {
        apply_part(apply_parts(acc, parts.drop_last()), parts.last())
    }
}

/// Counts after reading the lines in order; only lines that contain
/// `upgraded,` are summary lines.
pub open spec fn apply_lines(acc: (u32, u32, u32), ls: Seq<Seq<char>>) -> (u32, u32, u32)
    decreases ls.len(),
{
    if ls.len() == 0 {
        acc
    } else {
        let a = apply_lines(acc, ls.drop_last());
        if contains(ls.last(), "upgraded,"@) {
            apply_parts(a, split(ls.last(), ','))
        } else {
            a
        }
    }
}

/// The counts of the summary line `X upgraded, Y newly installed, Z to
/// remove` in `apt upgrade` error output; zero where absent.
pub open spec fn upgrade_counts(stderr: Seq<char>) -> (u32, u32, u32) {
    apply_lines((0, 0, 0), lines(stderr))
}

/// Debian-family package manager.
#[derive(Debug, Clone, Copy, PartialEq, Eq)]
pub struct AptManager {
    /// Prefix commands with `sudo`.
    pub use_sudo: bool,
}

/// `apt` with `args`, behind `sudo` when asked.
pub open spec fn apt_text(use_sudo: bool, args: Seq<char>) -> Seq<char> {
    if use_sudo {
        "sudo apt "@ + args
    } else {
        "apt "@ + args
    }
}

fn piece(s: &str, a: usize, b: usize) -> (r: String)
    requires
        a <= b <= s@.len(),
    ensures
        r@ == s@.subrange(a as int, b as int),
{
    String::from_str(s.substring_char(a, b))
}

/// The package described by one line of `apt list --upgradable`.
fn parse_line(line: &str) -> (r: Option<UpgradablePackage>)
    ensures
        match apt_entry(line@) {
            None => r is None,
            Some(e) => r is Some && apt_package(r->Some_0, e),
        },
{
    let lv = chars_of(line);
    let wb = word_bounds(&lv, 0, lv.len());
    proof {
        assert(lv@.subrange(0, lv@.len() as int) =~= lv@);
    }
    if lv.len() == 0 || str_starts_with(line, "Listing") || str_starts_with(line, "WARNING")
        || wb.len() < 2 {
        return None;
    }
    let (a0, b0) = wb[0];
    let (a1, b1) = wb[1];
    proof {
        assert(pieces(lv@, wb@)[0] == lv@.subrange(a0 as int, b0 as int));
        assert(pieces(lv@, wb@)[1] == lv@.subrange(a1 as int, b1 as int));
    }
    let na = piece(line, a0, b0);
    let nav = chars_of(na.as_str());
    let slash = chars_of("/");
    proof {
        reveal_strlit("/");
        assert(slash@ =~= seq!['/']);
    }
    let (name, arch) = match find_from(&nav, &slash, 0) {
        Some(k) => {
            (piece(na.as_str(), 0, k), Some(piece(na.as_str(), k + 1, nav.len())))
        },
        None => (na.clone(), None),
    };
    let marker = chars_of("[upgradable from: ");
    let close = chars_of("]");
    proof {
        reveal_strlit("]");
        assert(close@ =~= seq![']']);
    }
    let current = match find_from(&lv, &marker, 0) {
        Some(p) => {
            let st = p + marker.len();
            match find_from(&lv, &close, st) {
                Some(e) => piece(line, st, e),
                None => String::from_str("unknown"),
            }
        },
        None => String::from_str("unknown"),
    };
    let new_version = piece(line, a1, b1);
    let pkg = UpgradablePackage::new(name, current, new_version);
    match arch {
        Some(a) => Some(pkg.with_arch(a)),
        None => Some(pkg),
    }
}

/// Reads one comma-separated part of the upgrade summary.
fn read_part(part: &str, acc: (u32, u32, u32)) -> (r: (u32, u32, u32))
    ensures
        r == apply_part(acc, part@),
{
    let t = crate::text::trimmed(part);
    let tv = chars_of(t.as_str());
    let a = count_in(&tv, " upgraded", acc.0);
    let b = count_in(&tv, " newly installed", acc.1);
    let c = count_in(&tv, " to remove", acc.2);
    (a, b, c)
}

/// The count before `key` in the trimmed part `tv`, or `keep`.
fn count_in(tv: &Vec<char>, key: &str, keep: u32) -> (r: u32)
    ensures
        r == match first_from(tv@, key@, 0) {
            Some(n) => match parsed_u32(trim(tv@.subrange(0, n))) {
                Some(v) => v,
                None => keep,
            },
            None => keep,
        },
{
    let kv = chars_of(key);
    match find_from(tv, &kv, 0) {
        Some(n) => {
            let (a, b) = trim_bounds(tv, 0, n);
            proof {
                let s = tv@.subrange(0, n as int);
                assert(s.subrange(0, n as int) =~= s);
                assert(tv@.subrange(0, n as int).subrange(a as int, b as int) =~= tv@.subrange(
                    a as int,
                    b as int,
                ));
                lemma_trim_window(tv@, n as int, a as int, b as int);
            }
            match parse_u32(tv, a, b) {
                Some(v) => v,
                None => keep,
            }
        },
        None => keep,
    }
}

/// Trimming a prefix of `v` reads the window that `trim_bounds` found.
proof fn lemma_trim_window(v: Seq<char>, n: int, a: int, b: int)
    requires
        0 <= a <= b <= n <= v.len(),
        a == crate::text::skip_blanks(v.subrange(0, n), 0),
        b == crate::text::back_blanks(v, a, n),
    ensures
        trim(v.subrange(0, n)) == v.subrange(a, b),
{
    let s = v.subrange(0, n);
    lemma_back_blanks_prefix(v, s, a, n);
    assert(s.subrange(a, b) =~= v.subrange(a, b));
}

proof fn lemma_back_blanks_prefix(v: Seq<char>, s: Seq<char>, lo: int, j: int)
    requires
        s == v.subrange(0, s.len() as int),
        0 <= lo <= j <= s.len() <= v.len(),
    ensures
        crate::text::back_blanks(s, lo, j) == crate::text::back_blanks(v, lo, j),
    decreases j - lo,
{
    if lo < j {
        assert(s[j - 1] == v[j - 1]);
        lemma_back_blanks_prefix(v, s, lo, j - 1);
    }
}

impl AptManager {
    /// A manager that runs `apt`, behind `sudo` when `use_sudo` holds.
    pub fn new(use_sudo: bool) -> (r: Self)
        ensures
            r.use_sudo == use_sudo,
    {
        AptManager { use_sudo }
    }

    /// The manager family.
    pub fn manager_type(&self) -> (r: PackageManagerType)
        ensures
            r == PackageManagerType::Apt,
    {
        PackageManagerType::Apt
    }

    /// `apt` with `args`, behind `sudo` when configured.
    pub fn apt_cmd(&self, args: &str) -> (r: String)
        ensures
            r@ == apt_text(self.use_sudo, args@),
    {
        if self.use_sudo {
            String::from_str("sudo apt ").concat(args)
        } else {
            String::from_str("apt ").concat(args)
        }
    }

    /// The command that refreshes the package lists.
    pub fn refresh_command(&self) -> (r: String)
        ensures
            r@ == apt_text(self.use_sudo, "update -qq"@),
    {
        self.apt_cmd("update -qq")
    }

    /// The command that lists upgradable packages.
    pub fn list_command(&self) -> (r: String)
        ensures
            r@ == apt_text(self.use_sudo, "list --upgradable"@),
    {
        self.apt_cmd("list --upgradable")
    }

    /// The command that upgrades all packages.
    pub fn upgrade_command(&self) -> (r: String)
        ensures
            r@ == apt_text(self.use_sudo, "upgrade -y"@),
    {
        self.apt_cmd("upgrade -y")
    }

    /// The command that simulates the upgrade.
    pub fn dry_run_command(&self) -> (r: String)
        ensures
            r@ == apt_text(self.use_sudo, "upgrade --simulate"@),
    {
        self.apt_cmd("upgrade --simulate")
    }

    /// The command whose success means a reboot is required.
    pub fn reboot_check_command(&self) -> (r: &'static str)
        ensures
            r@ == "test -f /var/run/reboot-required"@,
    {
        "test -f /var/run/reboot-required"
    }

    /// The command whose success means `apt` is installed.
    pub fn availability_command(&self) -> (r: &'static str)
        ensures
            r@ == "which apt"@,
    {
        "which apt"
    }

    /// The packages listed by `apt list --upgradable`, in order.
    pub fn parse_upgradable(output: &str) -> (r: Vec<UpgradablePackage>)
        ensures
            r@.len() == apt_entries(lines(output@)).len(),
            forall|k: int|
                0 <= k < r@.len() ==> apt_package(r@[k], #[trigger] apt_entries(lines(output@))[k]),
    {
        let v = chars_of(output);
        let lb = line_bounds(&v, 0, v.len());
        let ghost ls = lines(output@);
        proof {
            assert(v@.subrange(0, v@.len() as int) =~= v@);
        }
        let mut out: Vec<UpgradablePackage> = Vec::new();
        let mut k: usize = 0;
        while k < lb.len()
            invariant
                v@ == output@,
                ls == lines(output@),
                pieces(v@, lb@) == ls,
                crate::text::bounded(lb@, 0, v@.len() as int),
                k <= lb@.len(),
                out@.len() == apt_entries(ls.take(k as int)).len(),
                forall|j: int|
                    0 <= j < out@.len() ==> apt_package(
                        out@[j],
                        #[trigger] apt_entries(ls.take(k as int))[j],
                    ),
            decreases lb@.len() - k,
        {
            let (a, b) = lb[k];
            proof {
                assert(pieces(v@, lb@)[k as int] == v@.subrange(a as int, b as int));
                assert(ls.take(k + 1).drop_last() =~= ls.take(k as int));
                assert(ls.take(k + 1).last() == ls[k as int]);
            }
            let line = piece(output, a, b);
            match parse_line(line.as_str()) {
                Some(p) => {
                    out.push(p);
                },
                None => {},
            }
            k = k + 1;
        }
        proof {
            assert(ls.take(lb@.len() as int) =~= ls);
        }
        out
    }

    /// The (upgraded, newly installed, removed) counts of an `apt upgrade`
    /// run, read from its error output; the result counts as a success.
    pub fn parse_upgrade_output(stdout: &str, stderr: &str) -> (r: UpdateResult)
        ensures
            r.success,
            (r.upgraded_count, r.new_count, r.removed_count) == upgrade_counts(stderr@),
            !r.reboot_required,
            r.upgraded_packages@.len() == 0,
            r.error is None,
    {
        let v = chars_of(stderr);
        let lb = line_bounds(&v, 0, v.len());
        let ghost ls = lines(stderr@);
        proof {
            assert(v@.subrange(0, v@.len() as int) =~= v@);
        }
        let mut acc: (u32, u32, u32) = (0, 0, 0);
        let mut k: usize = 0;
        while k < lb.len()
            invariant
                v@ == stderr@,
                ls == lines(stderr@),
                pieces(v@, lb@) == ls,
                crate::text::bounded(lb@, 0, v@.len() as int),
                k <= lb@.len(),
                acc == apply_lines((0, 0, 0), ls.take(k as int)),
            decreases lb@.len() - k,
        {
            let (a, b) = lb[k];
            proof {
                assert(pieces(v@, lb@)[k as int] == v@.subrange(a as int, b as int));
                assert(ls.take(k + 1).drop_last() =~= ls.take(k as int));
                assert(ls.take(k + 1).last() == ls[k as int]);
            }
            let line = piece(stderr, a, b);
            if str_contains(line.as_str(), "upgraded,") {
                let lv = chars_of(line.as_str());
                let pb = split_bounds(&lv, 0, lv.len(), ',');
                proof {
                    assert(lv@.subrange(0, lv@.len() as int) =~= lv@);
                }
                let ghost parts = split(line@, ',');
                let ghost start = acc;
                let mut q: usize = 0;
                while q < pb.len()
                    invariant
                        lv@ == line@,
                        parts == split(line@, ','),
                        pieces(lv@, pb@) == parts,
                        crate::text::bounded(pb@, 0, lv@.len() as int),
                        q <= pb@.len(),
                        acc == apply_parts(start, parts.take(q as int)),
                    decreases pb@.len() - q,
                {
                    let (c, d) = pb[q];
                    proof {
                        assert(pieces(lv@, pb@)[q as int] == lv@.subrange(c as int, d as int));
                        assert(parts.take(q + 1).drop_last() =~= parts.take(q as int));
                        assert(parts.take(q + 1).last() == parts[q as int]);
                    }
                    let part = piece(line.as_str(), c, d);
                    acc = read_part(part.as_str(), acc);
                    q = q + 1;
                }
                proof {
                    assert(parts.take(pb@.len() as int) =~= parts);
                }
            }
            k = k + 1;
        }
        proof {
            assert(ls.take(lb@.len() as int) =~= ls);
        }
        UpdateResult {
            success: true,
            upgraded_count: acc.0,
            new_count: acc.1,
            removed_count: acc.2,
            reboot_required: false,
            upgraded_packages: Vec::new(),
            error: None,
        }
    }

    /// Whether refreshing the package lists went through: an executor
    /// failure is an execution error, a failed command means the
    /// repositories are unavailable.
    pub fn check_refresh(&self, run: &Result<CommandResult, ExecError>) -> (r: Result<(), PackageError>)
        ensures
            match run {
                Err(e) => r matches Err(PackageError::ExecutionError(m)) && m@ == exec_error_text(*e),
                Ok(c) => if c.status == 0 {
                    r is Ok
                } else {
                    r == Err::<(), PackageError>(PackageError::RepositoryUnavailable(c.stderr))
                },
            },
    {
        match run {
            Err(e) => Err(execution_error(e)),
            Ok(c) => {
                if c.success() {
                    Ok(())
                } else {
                    Err(PackageError::RepositoryUnavailable(c.stderr.clone()))
                }
            },
        }
    }

    /// The upgradable packages from the run of `list_command()`.
    pub fn upgradable_from(&self, run: Result<CommandResult, ExecError>) -> (r: Result<
        Vec<UpgradablePackage>,
        PackageError,
    >)
        ensures
            match run {
                Err(e) => r matches Err(PackageError::ExecutionError(m)) && m@ == exec_error_text(e),
                Ok(c) => if c.status == 0 {
                    &&& r is Ok
                    &&& r->Ok_0@.len() == apt_entries(lines(c.stdout@)).len()
                    &&& forall|k: int|
                        0 <= k < r->Ok_0@.len() ==> apt_package(
                            r->Ok_0@[k],
                            #[trigger] apt_entries(lines(c.stdout@))[k],
                        )
                } else {
                    r == Err::<Vec<UpgradablePackage>, PackageError>(
                        PackageError::CommandFailed { status: c.status, message: c.stderr },
                    )
                },
            },
    {
        match run {
            Err(e) => Err(execution_error(&e)),
            Ok(c) => {
                if c.success() {
                    Ok(AptManager::parse_upgradable(c.stdout.as_str()))
                } else {
                    Err(PackageError::CommandFailed { status: c.status, message: c.stderr })
                }
            },
        }
    }

    /// The result of the run of `upgrade_command()`. A failed command whose
    /// error output mentions `Could not get lock` is a lock conflict, one
    /// that mentions `Permission denied` a permission error; other failures
    /// are command failures. The reboot answer is added separately.
    pub fn upgrade_from(&self, run: Result<CommandResult, ExecError>) -> (r: Result<
        UpdateResult,
        PackageError,
    >)
        ensures
            match run {
                Err(e) => r matches Err(PackageError::ExecutionError(m)) && m@ == exec_error_text(e),
                Ok(c) => if c.status == 0 {
                    &&& r is Ok
                    &&& r->Ok_0.success
                    &&& (r->Ok_0.upgraded_count, r->Ok_0.new_count, r->Ok_0.removed_count)
                        == upgrade_counts(c.stderr@)
                    &&& !r->Ok_0.reboot_required
                } else if contains(c.stderr@, "Could not get lock"@) {
                    r == Err::<UpdateResult, PackageError>(PackageError::LockConflict(c.stderr))
                } else if contains(c.stderr@, "Permission denied"@) {
                    r == Err::<UpdateResult, PackageError>(PackageError::PermissionDenied(c.stderr))
                } else {
                    r == Err::<UpdateResult, PackageError>(
                        PackageError::CommandFailed { status: c.status, message: c.stderr },
                    )
                },
            },
    {
        match run {
            Err(e) => Err(execution_error(&e)),
            Ok(c) => {
                if c.success() {
                    Ok(AptManager::parse_upgrade_output(c.stdout.as_str(), c.stderr.as_str()))
                } else if str_contains(c.stderr.as_str(), "Could not get lock") {
                    Err(PackageError::LockConflict(c.stderr))
                } else if str_contains(c.stderr.as_str(), "Permission denied") {
                    Err(PackageError::PermissionDenied(c.stderr))
                } else {
                    Err(PackageError::CommandFailed { status: c.status, message: c.stderr })
                }
            },
        }
    }

    /// The result of the run of `dry_run_command()`.
    pub fn dry_run_from(&self, run: Result<CommandResult, ExecError>) -> (r: Result<
        UpdateResult,
        PackageError,
    >)
        ensures
            match run {
                Err(e) => r matches Err(PackageError::ExecutionError(m)) && m@ == exec_error_text(e),
                Ok(c) => if c.status == 0 {
                    &&& r is Ok
                    &&& r->Ok_0.success
                    &&& (r->Ok_0.upgraded_count, r->Ok_0.new_count, r->Ok_0.removed_count)
                        == upgrade_counts(c.stderr@)
                } else {
                    r == Err::<UpdateResult, PackageError>(
                        PackageError::CommandFailed { status: c.status, message: c.stderr },
                    )
                },
            },
    {
        match run {
            Err(e) => Err(execution_error(&e)),
            Ok(c) => {
                if c.success() {
                    Ok(AptManager::parse_upgrade_output(c.stdout.as_str(), c.stderr.as_str()))
                } else {
                    Err(PackageError::CommandFailed { status: c.status, message: c.stderr })
                }
            },
        }
    }

    /// Whether a reboot is required, from the run of
    /// `reboot_check_command()`: the marker file exists.
    pub fn reboot_from(&self, run: &Result<CommandResult, ExecError>) -> (r: Result<bool, PackageError>)
        ensures
            match run {
                Err(e) => r matches Err(PackageError::ExecutionError(m)) && m@ == exec_error_text(*e),
                Ok(c) => r == Ok::<bool, PackageError>(c.status == 0),
            },
    {
        match run {
            Err(e) => Err(execution_error(e)),
            Ok(c) => Ok(c.success()),
        }
    }
}

} // verus!
