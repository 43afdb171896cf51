//! RPM-family package manager: `dnf` (or `yum`) commands and their output.

use vstd::prelude::*;
use crate::error::{ExecError, PackageError, exec_error_text};
use crate::exec::CommandResult;
use crate::pkg::{UpdateResult, UpgradablePackage, PackageManagerType, opt_text, execution_error};
use crate::text::{
    chars_of,
    contains,
    line_bounds,
    lines,
    pieces,
    starts_with,
    str_contains,
    str_starts_with,
    word_bounds,
    words,
};

verus! {

/// The last index of `c` in `s`.
pub open spec fn last_index(s: Seq<char>, c: char) -> Option<int> {
    if exists|i: int| 0 <= i < s.len() && s[i] == c {
        Some(
            choose|i: int|
                0 <= i < s.len() && s[i] == c && forall|j: int| i < j < s.len() ==> s[j] != c,
        )
    } else {
        None
    }
}

/// The package described by one line of `dnf check-update`, as (name, new
/// version, architecture, repository). Empty lines, `Last metadata` lines
/// and lines of fewer than three words describe none. The first word is
/// `name.arch`, split at its last dot.
pub open spec fn dnf_entry(l: Seq<char>) -> Option<
    (Seq<char>, Seq<char>, Option<Seq<char>>, Seq<char>),
> {
    let w = words(l);
    if l.len() == 0 || starts_with(l, "Last metadata"@) || w.len() < 3 {
        None
    } else {
        let na = w[0];
        match last_index(na, '.') {
            Some(k) => Some((na.subrange(0, k), w[1], Some(na.subrange(k + 1, na.len() as int)), w[2])),
            None => Some((na, w[1], None, w[2])),
        }
    }
}

/// The packages described by a list of lines, in order.
pub open spec fn dnf_entries(ls: Seq<Seq<char>>) -> Seq<
    (Seq<char>, Seq<char>, Option<Seq<char>>, Seq<char>),
>
    decreases ls.len(),
{
    if ls.len() == 0 {
        Seq::empty()
    } else {
        let rest = dnf_entries(ls.drop_last());
        match dnf_entry(ls.last()) {
            Some(e) => rest.push(e),
            None => rest,
        }
    }
}

/// Whether `p` is the package `e`; the installed version is not reported.
pub open spec fn dnf_package(
    p: UpgradablePackage,
    e: (Seq<char>, Seq<char>, Option<Seq<char>>, Seq<char>),
) -> bool {
    &&& p.name@ == e.0
    &&& p.current_version@ == "unknown"@
    &&& p.new_version@ == e.1
    &&& opt_text(p.arch, e.2)
    &&& p.repository is Some
    &&& p.repository->0@ == e.3
}

/// Number of lines that start with `Updated:` or `Upgraded:`.
pub open spec fn updated_lines(ls: Seq<Seq<char>>) -> nat
    decreases ls.len(),
{
    if ls.len() == 0 {
        0
    } else {
        updated_lines(ls.drop_last()) + if starts_with(ls.last(), "Updated:"@) || starts_with(
            ls.last(),
            "Upgraded:"@,
        ) {
            1nat
        } else {
            0nat
        }
    }
}

/// `n`, or the largest 32-bit value when `n` exceeds it.
pub open spec fn saturate(n: nat) -> u32 {
    if n > u32::MAX {
        u32::MAX
    } else {
        n as u32
    }
}

/// RPM-family package manager.
#[derive(Debug, Clone, Copy, PartialEq, Eq)]
pub struct DnfManager {
    /// Prefix commands with `sudo`.
    pub use_sudo: bool,
    /// Run `yum` instead of `dnf`.
    pub use_yum: bool,
}

/// The tool with `args`, behind `sudo` when asked.
pub open spec fn dnf_text(use_sudo: bool, use_yum: bool, args: Seq<char>) -> Seq<char> {
    let tool = if use_yum {
        "yum "@
    } else {
        "dnf "@
    };
    if use_sudo {
        "sudo "@ + tool + args
    } else {
        tool + args
    }
}

fn piece(s: &str, a: usize, b: usize) -> (r: String)
    requires
        a <= b <= s@.len(),
    ensures
        r@ == s@.subrange(a as int, b as int),
{
    String::from_str(s.substring_char(a, b))
}

fn find_last(v: &Vec<char>, c: char) -> (r: Option<usize>)
    ensures
        match r {
            Some(i) => i < v@.len() && last_index(v@, c) == Some(i as int),
            None => last_index(v@, c) is None,
        },
{
    let mut i = v.len();
    while i > 0
        invariant
            i <= v@.len(),
            forall|j: int| i <= j < v@.len() ==> v@[j] != c,
        decreases i,
    {
        if v[i - 1] == c {
            proof {
                let k = (i - 1) as int;
                let ch = choose|x: int|
                    0 <= x < v@.len() && v@[x] == c && forall|j: int|
                        x < j < v@.len() ==> v@[j] != c;
                assert(ch == k) by {
                    if ch < k {
                        assert(v@[k] != c);
                    } else if ch > k {
                        assert(v@[ch] != c);
                    }
                }
            }
            return Some(i - 1);
        }
        i = i - 1;
    }
    None
}

/// The package described by one line of `dnf check-update`.
fn parse_line(line: &str) -> (r: Option<UpgradablePackage>)
    ensures
        match dnf_entry(line@) {
            None => r is None,
            Some(e) => r is Some && dnf_package(r->Some_0, e),
        },
{
    let lv = chars_of(line);
    let wb = word_bounds(&lv, 0, lv.len());
    proof {
        assert(lv@.subrange(0, lv@.len() as int) =~= lv@);
    }
    if lv.len() == 0 || str_starts_with(line, "Last metadata") || wb.len() < 3 {
        return None;
    }
    let (a0, b0) = wb[0];
    let (a1, b1) = wb[1];
    let (a2, b2) = wb[2];
    proof {
        assert(pieces(lv@, wb@)[0] == lv@.subrange(a0 as int, b0 as int));
        assert(pieces(lv@, wb@)[1] == lv@.subrange(a1 as int, b1 as int));
        assert(pieces(lv@, wb@)[2] == lv@.subrange(a2 as int, b2 as int));
    }
    let na = piece(line, a0, b0);
    let nav = chars_of(na.as_str());
    let new_version = piece(line, a1, b1);
    let repository = piece(line, a2, b2);
    match find_last(&nav, '.') {
        Some(k) => {
            let pkg = UpgradablePackage::new(
                piece(na.as_str(), 0, k),
                String::from_str("unknown"),
                new_version,
            );
            Some(pkg.with_arch(piece(na.as_str(), k + 1, nav.len())).with_repository(repository))
        },
        None => {
            let pkg = UpgradablePackage::new(na, String::from_str("unknown"), new_version);
            Some(pkg.with_repository(repository))
        },
    }
}

impl DnfManager {
    /// A manager that runs `dnf`, behind `sudo` when `use_sudo` holds.
    pub fn new(use_sudo: bool) -> (r: Self)
        ensures
            r.use_sudo == use_sudo,
            !r.use_yum,
    {
        DnfManager { use_sudo, use_yum: false }
    }

    /// The manager family.
    pub fn manager_type(&self) -> (r: PackageManagerType)
        ensures
            r == PackageManagerType::Dnf,
    {
        PackageManagerType::Dnf
    }

    /// Picks the tool from the probes of `which dnf` and `which yum`: `dnf`
    /// when present, else `yum`; neither is an error.
    pub fn detect_tool(&mut self, has_dnf: bool, has_yum: bool) -> (r: Result<(), PackageError>)
        ensures
            final(self).use_sudo == old(self).use_sudo,
            has_dnf ==> r is Ok && !final(self).use_yum,
            !has_dnf && has_yum ==> r is Ok && final(self).use_yum,
            !has_dnf && !has_yum ==> {
                &&& *final(self) == *old(self)
                &&& r matches Err(PackageError::ManagerNotFound(m))
                    && m@ == "neither dnf nor yum found"@
            },
    {
        if has_dnf {
            self.use_yum = false;
        } else if has_yum {
            self.use_yum = true;
        } else {
            return Err(PackageError::ManagerNotFound(String::from_str("neither dnf nor yum found")));
        }
        Ok(())
    }

    /// The tool with `args`, behind `sudo` when configured.
    pub fn pkg_cmd(&self, args: &str) -> (r: String)
        ensures
            r@ == dnf_text(self.use_sudo, self.use_yum, args@),
    {
        let tool = if self.use_yum {
            "yum "
        } else {
            "dnf "
        };
        if self.use_sudo {
            String::from_str("sudo ").concat(tool).concat(args)
        } else {
            String::from_str(tool).concat(args)
        }
    }

    /// The command that lists available updates.
    pub fn list_command(&self) -> (r: String)
        ensures
            r@ == dnf_text(self.use_sudo, self.use_yum, "check-update"@),
    {
        self.pkg_cmd("check-update")
    }

    /// The command that upgrades all packages.
    pub fn upgrade_command(&self) -> (r: String)
        ensures
            r@ == dnf_text(self.use_sudo, self.use_yum, "update -y"@),
    {
        self.pkg_cmd("update -y")
    }

    /// The command that shows the upgrade without performing it.
    pub fn dry_run_command(&self) -> (r: String)
        ensures
            r@ == dnf_text(self.use_sudo, self.use_yum, "update --assumeno"@),
    {
        self.pkg_cmd("update --assumeno")
    }

    /// The command whose failure means a reboot is required.
    pub fn reboot_check_command(&self) -> (r: &'static str)
        ensures
            r@ == "needs-restarting -r"@,
    {
        "needs-restarting -r"
    }

    /// The packages listed by `dnf check-update`, in order.
    pub fn parse_upgradable(output: &str) -> (r: Vec<UpgradablePackage>)
        ensures
            r@.len() == dnf_entries(lines(output@)).len(),
            forall|k: int|
                0 <= k < r@.len() ==> dnf_package(r@[k], #[trigger] dnf_entries(lines(output@))[k]),
    {
        let v = chars_of(output);
        let lb = line_bounds(&v, 0, v.len());
        let ghost ls = lines(output@);
        proof {
            assert(v@.subrange(0, v@.len() as int) =~= v@);
        }
        let mut out: Vec<UpgradablePackage> = Vec::new();
        let mut k: usize = 0;
        while k < lb.len()
            invariant
                v@ == output@,
                ls == lines(output@),
                pieces(v@, lb@) == ls,
                crate::text::bounded(lb@, 0, v@.len() as int),
                k <= lb@.len(),
                out@.len() == dnf_entries(ls.take(k as int)).len(),
                forall|j: int|
                    0 <= j < out@.len() ==> dnf_package(
                        out@[j],
                        #[trigger] dnf_entries(ls.take(k as int))[j],
                    ),
            decreases lb@.len() - k,
        {
            let (a, b) = lb[k];
            proof {
                assert(pieces(v@, lb@)[k as int] == v@.subrange(a as int, b as int));
                assert(ls.take(k + 1).drop_last() =~= ls.take(k as int));
                assert(ls.take(k + 1).last() == ls[k as int]);
            }
            let line = piece(output, a, b);
            match parse_line(line.as_str()) {
                Some(p) => {
                    out.push(p);
                },
                None => {},
            }
            k = k + 1;
        }
        proof {
            assert(ls.take(lb@.len() as int) =~= ls);
        }
        out
    }

    /// The result of an update run from its output: it succeeded when the
    /// output mentions `Complete!` or `Updated:`; the count is the number of
    /// lines that start with `Updated:` or `Upgraded:` (saturating); a
    /// failed run carries the whole output as its error.
    pub fn parse_update_output(output: &str) -> (r: UpdateResult)
        ensures
            r.success == (contains(output@, "Complete!"@) || contains(output@, "Updated:"@)),
            r.upgraded_count == saturate(updated_lines(lines(output@))),
            r.new_count == 0,
            r.removed_count == 0,
            !r.reboot_required,
            r.upgraded_packages@.len() == 0,
            r.success ==> r.error is None,
            !r.success ==> r.error is Some && r.error->0@ == output@,
    {
        let success = str_contains(output, "Complete!") || str_contains(output, "Updated:");
        let v = chars_of(output);
        let lb = line_bounds(&v, 0, v.len());
        let ghost ls = lines(output@);
        proof {
            assert(v@.subrange(0, v@.len() as int) =~= v@);
        }
        let mut upgraded: u32 = 0;
        let mut k: usize = 0;
        while k < lb.len()
            invariant
                v@ == output@,
                ls == lines(output@),
                pieces(v@, lb@) == ls,
                crate::text::bounded(lb@, 0, v@.len() as int),
                k <= lb@.len(),
                upgraded == saturate(updated_lines(ls.take(k as int))),
            decreases lb@.len() - k,
        {
            let (a, b) = lb[k];
            proof {
                assert(pieces(v@, lb@)[k as int] == v@.subrange(a as int, b as int));
                assert(ls.take(k + 1).drop_last() =~= ls.take(k as int));
                assert(ls.take(k + 1).last() == ls[k as int]);
            }
            let line = piece(output, a, b);
            if str_starts_with(line.as_str(), "Updated:") || str_starts_with(
                line.as_str(),
                "Upgraded:",
            ) {
                if upgraded < u32::MAX {
                    upgraded = upgraded + 1;
                }
            }
            k = k + 1;
        }
        proof {
            assert(ls.take(lb@.len() as int) =~= ls);
        }
        let error = if success {
            None
        } else {
            Some(String::from_str(output))
        };
        UpdateResult {
            success,
            upgraded_count: upgraded,
            new_count: 0,
            removed_count: 0,
            reboot_required: false,
            upgraded_packages: Vec::new(),
            error,
        }
    }

    /// The upgradable packages from the run of `list_command()`: exit status
    /// 0 (nothing) and 100 (updates available) are answers, others errors.
    pub fn upgradable_from(&self, run: Result<CommandResult, ExecError>) -> (r: Result<
        Vec<UpgradablePackage>,
        PackageError,
    >)
        ensures
            match run {
                Err(e) => r matches Err(PackageError::ExecutionError(m)) && m@ == exec_error_text(e),
                Ok(c) => if c.status == 0 || c.status == 100 {
                    &&& r is Ok
                    &&& r->Ok_0@.len() == dnf_entries(lines(c.stdout@)).len()
                    &&& forall|k: int|
                        0 <= k < r->Ok_0@.len() ==> dnf_package(
                            r->Ok_0@[k],
                            #[trigger] dnf_entries(lines(c.stdout@))[k],
                        )
                } else {
                    r == Err::<Vec<UpgradablePackage>, PackageError>(
                        PackageError::CommandFailed { status: c.status, message: c.stderr },
                    )
                },
            },
    {
        match run {
            Err(e) => Err(execution_error(&e)),
            Ok(c) => {
                if c.status != 0 && c.status != 100 {
                    Err(PackageError::CommandFailed { status: c.status, message: c.stderr })
                } else {
                    Ok(DnfManager::parse_upgradable(c.stdout.as_str()))
                }
            },
        }
    }

    /// The result of the run of `upgrade_command()`. A failed command whose
    /// error output mentions `lock` is a lock conflict; other failures are
    /// command failures.
    pub fn upgrade_from(&self, run: Result<CommandResult, ExecError>) -> (r: Result<
        UpdateResult,
        PackageError,
    >)
        ensures
            match run {
                Err(e) => r matches Err(PackageError::ExecutionError(m)) && m@ == exec_error_text(e),
                Ok(c) => if c.status == 0 {
                    &&& r is Ok
                    &&& r->Ok_0.success == (contains(c.stdout@, "Complete!"@) || contains(
                        c.stdout@,
                        "Updated:"@,
                    ))
                    &&& r->Ok_0.upgraded_count == saturate(updated_lines(lines(c.stdout@)))
                } else if contains(c.stderr@, "lock"@) {
                    r == Err::<UpdateResult, PackageError>(PackageError::LockConflict(c.stderr))
                } else {
                    r == Err::<UpdateResult, PackageError>(
                        PackageError::CommandFailed { status: c.status, message: c.stderr },
                    )
                },
            },
    {
        match run {
            Err(e) => Err(execution_error(&e)),
            Ok(c) => {
                if c.success() {
                    Ok(DnfManager::parse_update_output(c.stdout.as_str()))
                } else if str_contains(c.stderr.as_str(), "lock") {
                    Err(PackageError::LockConflict(c.stderr))
                } else {
                    Err(PackageError::CommandFailed { status: c.status, message: c.stderr })
                }
            },
        }
    }

    /// The result of the run of `dry_run_command()`; its exit status is not
    /// an error, since `--assumeno` always declines.
    pub fn dry_run_from(&self, run: Result<CommandResult, ExecError>) -> (r: Result<
        UpdateResult,
        PackageError,
    >)
        ensures
            match run {
                Err(e) => r matches Err(PackageError::ExecutionError(m)) && m@ == exec_error_text(e),
                Ok(c) => {
                    &&& r is Ok
                    &&& r->Ok_0.success == (contains(c.stdout@, "Complete!"@) || contains(
                        c.stdout@,
                        "Updated:"@,
                    ))
                    &&& r->Ok_0.upgraded_count == saturate(updated_lines(lines(c.stdout@)))
                },
            },
    {
        match run {
            Err(e) => Err(execution_error(&e)),
            Ok(c) => Ok(DnfManager::parse_update_output(c.stdout.as_str())),
        }
    }

    /// Whether a reboot is required, from the run of
    /// `reboot_check_command()`: the check fails when one is.
    pub fn reboot_from(&self, run: &Result<CommandResult, ExecError>) -> (r: Result<bool, PackageError>)
        ensures
            match run {
                Err(e) => r matches Err(PackageError::ExecutionError(m)) && m@ == exec_error_text(*e),
                Ok(c) => r == Ok::<bool, PackageError>(c.status != 0),
            },
    {
        match run {
            Err(e) => Err(execution_error(e)),
            Ok(c) => Ok(!c.success()),
        }
    }
}

} // verus!
