//! The collection pipeline model: the fixed manifest of diagnostic
//! sources, per-source acquisition outcomes, selection of archive
//! members from what actually landed in staging, and deterministic
//! archive naming.

use vstd::prelude::*;
use vstd::string::*;

use crate::support_info::SupportInfo;
use crate::text::{dec_rep, format_u64, lemma_dec_rep_injective};

verus! {

/// How one diagnostic source is acquired.
#[derive(Copy, Clone, Debug, PartialEq, Eq, Structural)]
pub enum SourceKind {
    Command,
    FileCopy,
    DirectoryCopy,
}

/// Why an acquisition or a whole run failed.
#[derive(Copy, Clone, Debug, PartialEq, Eq, Structural)]
pub enum ErrorKind {
    /// One diagnostic command or copy source could not be read;
    /// recovered locally, sibling sources unaffected.
    SourceUnavailable,
    /// The staging directory could not be created; fatal to the run.
    StagingIo,
    /// The packaging tool could not run or exited abnormally; fatal.
    Archival,
}

/// One diagnostic source of the manifest, fixed for a whole run.
pub struct SourceDescriptor {
    pub kind: SourceKind,
    /// Identifies the source: the command name, or the origin path.
    pub name: String,
    pub command_args: Vec<String>,
    pub origin_path: String,
    /// Relative path under the staging root; safe to join (no traversal).
    pub destination_name: String,
}

/// The mathematical image of a source descriptor.
pub ghost struct SourceSpec {
    pub kind: SourceKind,
    pub name: Seq<char>,
    pub args: Seq<Seq<char>>,
    pub origin: Seq<char>,
    pub dest: Seq<char>,
}

impl View for SourceDescriptor {
    type V = SourceSpec;

    open spec fn view(&self) -> SourceSpec {
        SourceSpec {
            kind: self.kind,
            name: self.name@,
            args: self.command_args.deep_view(),
            origin: self.origin_path@,
            dest: self.destination_name@,
        }
    }
}

/// Whether position `i` starts a path component.
pub open spec fn component_boundary(p: Seq<char>, i: int) -> bool {
    i == 0 || p[i - 1] == '/'
}

/// Whether the component starting at `i` is empty, `.` or `..`.
pub open spec fn bad_component_at(p: Seq<char>, i: int) -> bool {
    ||| p[i] == '/'
    ||| (p[i] == '.' && (i + 1 == p.len() || p[i + 1] == '/'))
    ||| (p[i] == '.' && i + 1 < p.len() && p[i + 1] == '.' && (i + 2 == p.len() || p[i + 2]
        == '/'))
}

/// A relative path that is safe to join under a staging root: it is
/// non-empty, names no directory with a trailing slash, and every
/// component is a real name (never empty, `.` or `..`).
pub open spec fn safe_rel_path(p: Seq<char>) -> bool {
    &&& p.len() > 0
    &&& p.last() != '/'
    &&& forall|i: int|
        0 <= i < p.len() && component_boundary(p, i) ==> !bad_component_at(p, i)
}

/// Checks that a relative path is safe to join under the staging root.
pub fn is_safe_rel_path(p: &str) -> (r: bool)
    ensures
        r == safe_rel_path(p@),
{
    let n = p.unicode_len();
    if n == 0 {
        return false;
    }
    if p.get_char(n - 1) == '/' {
        return false;
    }
    let mut i: usize = 0;
    while i < n
        invariant
            i <= n,
            n == p@.len(),
            forall|k: int|
                0 <= k < i && component_boundary(p@, k) ==> !bad_component_at(p@, k),
        decreases n - i,
    {
        let boundary = i == 0 || p.get_char(i - 1) == '/';
        if boundary {
            let c = p.get_char(i);
            let mut bad = false;
            if c == '/' {
                bad = true;
            } else if c == '.' {
                if i + 1 == n {
                    bad = true;
                } else {
                    let c1 = p.get_char(i + 1);
                    if c1 == '/' {
                        bad = true;
                    } else if c1 == '.' {
                        if i + 2 == n {
                            bad = true;
                        } else if p.get_char(i + 2) == '/' {
                            bad = true;
                        }
                    }
                }
            }
            if bad {
                proof {
                    assert(component_boundary(p@, i as int));
                    assert(bad_component_at(p@, i as int));
                    assert(!safe_rel_path(p@));
                }
                return false;
            }
        }
        i = i + 1;
    }
    true
}

/// Joins a safe relative path under a root directory.
pub fn join_under(root: &str, rel: &str) -> (r: String)
    requires
        safe_rel_path(rel@),
    ensures
        r@ == root@ + "/"@ + rel@,
{
    let mut r = String::from_str(root);
    r.append("/");
    r.append(rel);
    r
}

/// The name of the host-information text file in the staging area.
pub open spec fn info_file_name() -> Seq<char> {
    "systeminfo.txt"@
}

/// The name of the host-information text file.
pub fn info_file() -> (r: &'static str)
    ensures
        r@ == info_file_name(),
{
    "systeminfo.txt"
}

fn args0() -> (r: Vec<String>)
    ensures
        r.deep_view() == Seq::<Seq<char>>::empty(),
{
    let r: Vec<String> = Vec::new();
    proof {
        assert(r.deep_view() =~= Seq::<Seq<char>>::empty());
    }
    r
}

fn args1(a: &str) -> (r: Vec<String>)
    ensures
        r.deep_view() == seq![a@],
{
    let mut r: Vec<String> = Vec::new();
    r.push(String::from_str(a));
    proof {
        assert(r.deep_view() =~= seq![a@]);
    }
    r
}

fn args2(a: &str, b: &str) -> (r: Vec<String>)
    ensures
        r.deep_view() == seq![a@, b@],
{
    let mut r: Vec<String> = Vec::new();
    r.push(String::from_str(a));
    r.push(String::from_str(b));
    proof {
        assert(r.deep_view() =~= seq![a@, b@]);
    }
    r
}

fn command_source(name: &str, command_args: Vec<String>) -> (r: SourceDescriptor)
    ensures
        r@ == (SourceSpec {
            kind: SourceKind::Command,
            name: name@,
            args: command_args.deep_view(),
            origin: Seq::<char>::empty(),
            dest: name@,
        }),
{
    SourceDescriptor {
        kind: SourceKind::Command,
        name: String::from_str(name),
        command_args,
        origin_path: String::new(),
        destination_name: String::from_str(name),
    }
}

fn copy_source(kind: SourceKind, origin: &str, dest: &str) -> (r: SourceDescriptor)
    ensures
        r@ == (SourceSpec {
            kind,
            name: origin@,
            args: Seq::<Seq<char>>::empty(),
            origin: origin@,
            dest: dest@,
        }),
{
    SourceDescriptor {
        kind,
        name: String::from_str(origin),
        command_args: args0(),
        origin_path: String::from_str(origin),
        destination_name: String::from_str(dest),
    }
}

/// The fixed manifest: the diagnostic commands whose output is
/// captured, and the files and directories copied into staging.
pub open spec fn manifest_spec() -> Seq<SourceSpec> {
    seq![
        (SourceSpec {
            kind: SourceKind::Command,
            name: "df"@,
            args: seq!["-h"@],
            origin: Seq::<char>::empty(),
            dest: "df"@,
        }),
        (SourceSpec {
            kind: SourceKind::Command,
            name: "dmesg"@,
            args: Seq::<Seq<char>>::empty(),
            origin: Seq::<char>::empty(),
            dest: "dmesg"@,
        }),
        (SourceSpec {
            kind: SourceKind::Command,
            name: "dmidecode"@,
            args: Seq::<Seq<char>>::empty(),
            origin: Seq::<char>::empty(),
            dest: "dmidecode"@,
        }),
        (SourceSpec {
            kind: SourceKind::Command,
            name: "journalctl"@,
            args: seq!["--since"@, "yesterday"@],
            origin: Seq::<char>::empty(),
            dest: "journalctl"@,
        }),
        (SourceSpec {
            kind: SourceKind::Command,
            name: "lsblk"@,
            args: seq!["-f"@],
            origin: Seq::<char>::empty(),
            dest: "lsblk"@,
        }),
        (SourceSpec {
            kind: SourceKind::Command,
            name: "lspci"@,
            args: seq!["-vv"@],
            origin: Seq::<char>::empty(),
            dest: "lspci"@,
        }),
        (SourceSpec {
            kind: SourceKind::Command,
            name: "lsusb"@,
            args: seq!["-vv"@],
            origin: Seq::<char>::empty(),
            dest: "lsusb"@,
        }),
        (SourceSpec {
            kind: SourceKind::Command,
            name: "sensors"@,
            args: Seq::<Seq<char>>::empty(),
            origin: Seq::<char>::empty(),
            dest: "sensors"@,
        }),
        (SourceSpec {
            kind: SourceKind::Command,
            name: "upower"@,
            args: seq!["-d"@],
            origin: Seq::<char>::empty(),
            dest: "upower"@,
        }),
        (SourceSpec {
            kind: SourceKind::Command,
            name: "uptime"@,
            args: Seq::<Seq<char>>::empty(),
            origin: Seq::<char>::empty(),
            dest: "uptime"@,
        }),
        (SourceSpec {
            kind: SourceKind::DirectoryCopy,
            name: "/etc/apt/sources.list.d"@,
            args: Seq::<Seq<char>>::empty(),
            origin: "/etc/apt/sources.list.d"@,
            dest: "apt/sources.list.d"@,
        }),
        (SourceSpec {
            kind: SourceKind::FileCopy,
            name: "/etc/apt/sources.list"@,
            args: Seq::<Seq<char>>::empty(),
            origin: "/etc/apt/sources.list"@,
            dest: "apt/sources.list"@,
        }),
        (SourceSpec {
            kind: SourceKind::FileCopy,
            name: "/etc/fstab"@,
            args: Seq::<Seq<char>>::empty(),
            origin: "/etc/fstab"@,
            dest: "fstab"@,
        }),
        (SourceSpec {
            kind: SourceKind::FileCopy,
            name: "/var/log/apt/history.log"@,
            args: Seq::<Seq<char>>::empty(),
            origin: "/var/log/apt/history.log"@,
            dest: "apt/history.log"@,
        }),
        (SourceSpec {
            kind: SourceKind::FileCopy,
            name: "/var/log/apt/history.log.1.gz"@,
            args: Seq::<Seq<char>>::empty(),
            origin: "/var/log/apt/history.log.1.gz"@,
            dest: "apt/history-rotated.log"@,
        }),
        (SourceSpec {
            kind: SourceKind::FileCopy,
            name: "/var/log/apt/term.log"@,
            args: Seq::<Seq<char>>::empty(),
            origin: "/var/log/apt/term.log"@,
            dest: "apt/term.log"@,
        }),
        (SourceSpec {
            kind: SourceKind::FileCopy,
            name: "/var/log/apt/term.log.1.gz"@,
            args: Seq::<Seq<char>>::empty(),
            origin: "/var/log/apt/term.log.1.gz"@,
            dest: "apt/term-rotated.log"@,
        }),
        (SourceSpec {
            kind: SourceKind::FileCopy,
            name: "/var/log/syslog"@,
            args: Seq::<Seq<char>>::empty(),
            origin: "/var/log/syslog"@,
            dest: "syslog.log"@,
        }),
        (SourceSpec {
            kind: SourceKind::FileCopy,
            name: "/var/log/Xorg.0.log"@,
            args: Seq::<Seq<char>>::empty(),
            origin: "/var/log/Xorg.0.log"@,
            dest: "Xorg.0.log"@,
        }),
    ]
}

/// Builds the fixed manifest of diagnostic sources.
pub fn manifest() -> (r: Vec<SourceDescriptor>)
    ensures
        r@.map_values(|d: SourceDescriptor| d@) == manifest_spec(),
{
    let mut v: Vec<SourceDescriptor> = Vec::new();
    v.push(command_source("df", args1("-h")));
    v.push(command_source("dmesg", args0()));
    v.push(command_source("dmidecode", args0()));
    v.push(command_source("journalctl", args2("--since", "yesterday")));
    v.push(command_source("lsblk", args1("-f")));
    v.push(command_source("lspci", args1("-vv")));
    v.push(command_source("lsusb", args1("-vv")));
    v.push(command_source("sensors", args0()));
    v.push(command_source("upower", args1("-d")));
    v.push(command_source("uptime", args0()));
    v.push(copy_source(SourceKind::DirectoryCopy, "/etc/apt/sources.list.d", "apt/sources.list.d"));
    v.push(copy_source(SourceKind::FileCopy, "/etc/apt/sources.list", "apt/sources.list"));
    v.push(copy_source(SourceKind::FileCopy, "/etc/fstab", "fstab"));
    v.push(copy_source(SourceKind::FileCopy, "/var/log/apt/history.log", "apt/history.log"));
    v.push(
        copy_source(SourceKind::FileCopy, "/var/log/apt/history.log.1.gz", "apt/history-rotated.log"),
    );
    v.push(copy_source(SourceKind::FileCopy, "/var/log/apt/term.log", "apt/term.log"));
    v.push(copy_source(SourceKind::FileCopy, "/var/log/apt/term.log.1.gz", "apt/term-rotated.log"));
    v.push(copy_source(SourceKind::FileCopy, "/var/log/syslog", "syslog.log"));
    v.push(copy_source(SourceKind::FileCopy, "/var/log/Xorg.0.log", "Xorg.0.log"));
    proof {
        assert(v@.map_values(|d: SourceDescriptor| d@) =~= manifest_spec());
    }
    v
}

/// The fixed manifest is well formed: every destination is a safe
/// relative path, destinations and identifiers are distinct, and no
/// destination collides with the host-information file.
#[verifier::rlimit(100)]
pub proof fn lemma_manifest_well_formed()
    ensures
        forall|i: int|
            0 <= i < manifest_spec().len() ==> safe_rel_path(#[trigger] manifest_spec()[i].dest),
        forall|i: int, j: int|
            0 <= i < j < manifest_spec().len() ==> manifest_spec()[i].name != manifest_spec()[j].name,
        forall|i: int, j: int|
            0 <= i < j < manifest_spec().len() ==> manifest_spec()[i].dest != manifest_spec()[j].dest,
        forall|i: int|
            0 <= i < manifest_spec().len() ==> manifest_spec()[i].dest != info_file_name(),
{
    reveal_strlit("df");
    reveal_strlit("dmesg");
    reveal_strlit("dmidecode");
    reveal_strlit("journalctl");
    reveal_strlit("lsblk");
    reveal_strlit("lspci");
    reveal_strlit("lsusb");
    reveal_strlit("sensors");
    reveal_strlit("upower");
    reveal_strlit("uptime");
    reveal_strlit("/etc/apt/sources.list.d");
    reveal_strlit("/etc/apt/sources.list");
    reveal_strlit("/etc/fstab");
    reveal_strlit("/var/log/apt/history.log");
    reveal_strlit("/var/log/apt/history.log.1.gz");
    reveal_strlit("/var/log/apt/term.log");
    reveal_strlit("/var/log/apt/term.log.1.gz");
    reveal_strlit("/var/log/syslog");
    reveal_strlit("/var/log/Xorg.0.log");
    reveal_strlit("apt/sources.list.d");
    reveal_strlit("apt/sources.list");
    reveal_strlit("fstab");
    reveal_strlit("apt/history.log");
    reveal_strlit("apt/history-rotated.log");
    reveal_strlit("apt/term.log");
    reveal_strlit("apt/term-rotated.log");
    reveal_strlit("syslog.log");
    reveal_strlit("Xorg.0.log");
    reveal_strlit("systeminfo.txt");
    // Mentioning each literal's length and a distinguishing character
    // brings the revealed facts into scope for the inequalities below.
    assert("df"@.len() >= 0);
    assert("dmesg"@.len() >= 0);
    assert("dmidecode"@.len() >= 0);
    assert("journalctl"@.len() >= 0);
    assert("lsblk"@.len() >= 0);
    assert("lspci"@.len() >= 0);
    assert("lsusb"@.len() >= 0);
    assert("sensors"@.len() >= 0);
    assert("upower"@.len() >= 0);
    assert("uptime"@.len() >= 0);
    assert("/etc/apt/sources.list.d"@.len() >= 0);
    assert("/etc/apt/sources.list"@.len() >= 0);
    assert("/etc/fstab"@.len() >= 0);
    assert("/var/log/apt/history.log"@.len() >= 0);
    assert("/var/log/apt/history.log.1.gz"@.len() >= 0);
    assert("/var/log/apt/term.log"@.len() >= 0);
    assert("/var/log/apt/term.log.1.gz"@.len() >= 0);
    assert("/var/log/syslog"@.len() >= 0);
    assert("/var/log/Xorg.0.log"@.len() >= 0);
    assert("apt/sources.list.d"@.len() >= 0);
    assert("apt/sources.list"@.len() >= 0);
    assert("fstab"@.len() >= 0);
    assert("apt/history.log"@.len() >= 0);
    assert("apt/history-rotated.log"@.len() >= 0);
    assert("apt/term.log"@.len() >= 0);
    assert("apt/term-rotated.log"@.len() >= 0);
    assert("syslog.log"@.len() >= 0);
    assert("Xorg.0.log"@.len() >= 0);
    assert("systeminfo.txt"@.len() >= 0);
    assert("dmesg"@[0] == 'd');
    assert("lsblk"@[0] == 'l');
    assert("lspci"@[0] == 'l');
    assert("lsusb"@[0] == 'l');
    assert("journalctl"@[0] == 'j');
    assert("/etc/fstab"@[0] == '/');
    assert("fstab"@[0] == 'f');
    assert("Xorg.0.log"@[0] == 'X');
    assert("syslog.log"@[0] == 's');
    assert("lsblk"@[2] == 'b');
    assert("lspci"@[2] == 'p');
    assert("lsusb"@[2] == 'u');
    assert("upower"@[2] == 'o');
    assert("uptime"@[2] == 't');
    assert("/etc/apt/sources.list"@[1] == 'e');
    assert("/var/log/apt/term.log"@[1] == 'v');
}

/// The record of one finished acquisition: consumed for logging only;
/// a failure never removes sibling files and never aborts siblings.
pub struct AcquisitionOutcome {
    pub identifier: String,
    pub success: bool,
    pub error: Option<ErrorKind>,
}

impl AcquisitionOutcome {
    /// An outcome carries an error exactly when it failed.
    pub open spec fn wf(&self) -> bool {
        self.success <==> self.error is None
    }
}

/// The outcome of running one diagnostic command: it succeeds exactly
/// when the process could be spawned and exited cleanly; any failure
/// is recorded as an unavailable source.
pub fn command_outcome(identifier: String, spawned: bool, exit_ok: bool) -> (o: AcquisitionOutcome)
    ensures
        o.wf(),
        o.identifier == identifier,
        o.success == (spawned && exit_ok),
        !(spawned && exit_ok) ==> o.error == Some(ErrorKind::SourceUnavailable),
{
    let success = spawned && exit_ok;
    AcquisitionOutcome {
        identifier,
        success,
        error: if success {
            None
        } else {
            Some(ErrorKind::SourceUnavailable)
        },
    }
}

/// The outcome of copying one file: it succeeds exactly when the
/// origin could be opened, the destination created, and the bytes
/// copied; any failure is recorded as an unavailable source.
pub fn file_copy_outcome(identifier: String, opened: bool, created: bool, copied: bool) -> (o:
    AcquisitionOutcome)
    ensures
        o.wf(),
        o.identifier == identifier,
        o.success == (opened && created && copied),
        !(opened && created && copied) ==> o.error == Some(ErrorKind::SourceUnavailable),
{
    let success = opened && created && copied;
    AcquisitionOutcome {
        identifier,
        success,
        error: if success {
            None
        } else {
            Some(ErrorKind::SourceUnavailable)
        },
    }
}

/// The outcome of copying a directory's child files: always a
/// success — a missing or unreadable directory means there is nothing
/// to copy, which is not an error, and a failed child does not affect
/// its siblings.
pub fn directory_copy_outcome(identifier: String, dir_readable: bool) -> (o: AcquisitionOutcome)
    ensures
        o.wf(),
        o.identifier == identifier,
        o.success,
{
    AcquisitionOutcome { identifier, success: true, error: None }
}

/// The archive members a directory copy contributes: one entry under
/// its destination per child file that was copied — none at all when
/// the directory was missing and no child could be copied.
pub fn directory_member_names(dest: &str, copied_children: &Vec<String>) -> (r: Vec<String>)
    ensures
        r@.len() == copied_children@.len(),
        forall|i: int|
            0 <= i < r@.len() ==> r@[i]@ == dest@ + "/"@ + copied_children@[i]@,
{
    let mut r: Vec<String> = Vec::new();
    let mut i: usize = 0;
    while i < copied_children.len()
        invariant
            i <= copied_children@.len(),
            r@.len() == i,
            forall|k: int|
                0 <= k < i ==> r@[k]@ == dest@ + "/"@ + copied_children@[k]@,
        decreases copied_children@.len() - i,
    {
        let mut name = String::from_str(dest);
        name.append("/");
        name.append(copied_children[i].as_str());
        r.push(name);
        i = i + 1;
    }
    r
}

/// Whether the run as a whole failed, and how: only a staging
/// directory that could not be created or an archive that could not
/// be written fails the run; failed sources never do.
pub fn collect_outcome(staging_created: bool, archive_written: bool) -> (r: Option<ErrorKind>)
    ensures
        r is None <==> staging_created && archive_written,
        !staging_created ==> r == Some(ErrorKind::StagingIo),
        staging_created && !archive_written ==> r == Some(ErrorKind::Archival),
{
    if !staging_created {
        Some(ErrorKind::StagingIo)
    } else if !archive_written {
        Some(ErrorKind::Archival)
    } else {
        None
    }
}

/// The destinations of the sources that succeeded, in manifest order.
pub open spec fn surviving_dests(m: Seq<SourceSpec>, failed: Set<Seq<char>>) -> Seq<Seq<char>>
    decreases m.len(),
{
    if m.len() == 0 {
        Seq::empty()
    } else if failed.contains(m[0].name) {
        surviving_dests(m.drop_first(), failed)
    } else {
        seq![m[0].dest] + surviving_dests(m.drop_first(), failed)
    }
}

/// The names the archive is built from: the destination of every
/// source that succeeded, and the host-information file.
pub open spec fn expected_members_spec(m: Seq<SourceSpec>, failed: Set<Seq<char>>) -> Seq<
    Seq<char>,
> {
    surviving_dests(m, failed).push(info_file_name())
}

/// The destination of every source, in manifest order.
pub open spec fn dests_of(m: Seq<SourceSpec>) -> Seq<Seq<char>> {
    m.map_values(|s: SourceSpec| s.dest)
}

/// When every source succeeds, the archive holds exactly one member
/// per manifest entry (plus the host-information file, added by
/// `expected_members_spec` itself).
pub proof fn lemma_all_sources_archived(m: Seq<SourceSpec>)
    ensures
        surviving_dests(m, Set::empty()) == dests_of(m),
        expected_members_spec(m, Set::empty()) == dests_of(m).push(info_file_name()),
    decreases m.len(),
{
    if m.len() == 0 {
        assert(surviving_dests(m, Set::empty()) =~= dests_of(m));
    } else {
        lemma_all_sources_archived(m.drop_first());
        assert(seq![m[0].dest] + dests_of(m.drop_first()) =~= dests_of(m));
    }
}

/// Whatever subset of sources fails, collection still completes and
/// the archive holds exactly the destinations of the sources outside
/// the failed set: a destination is archived if and only if some
/// non-failed source owns it.
pub proof fn lemma_failed_sources_omitted(m: Seq<SourceSpec>, failed: Set<Seq<char>>)
    ensures
        forall|d: Seq<char>|
            #[trigger] surviving_dests(m, failed).contains(d) <==> exists|i: int|
                0 <= i < m.len() && m[i].dest == d && !failed.contains(m[i].name),
        forall|d: Seq<char>|
            #[trigger] expected_members_spec(m, failed).contains(d) <==> d == info_file_name()
                || exists|i: int|
                0 <= i < m.len() && m[i].dest == d && !failed.contains(m[i].name),
    decreases m.len(),
{
    let e = expected_members_spec(m, failed);
    let s = surviving_dests(m, failed);
    assert forall|d: Seq<char>| #[trigger]
        e.contains(d) implies (d == info_file_name() || s.contains(d)) by {
        let k = choose|k: int| 0 <= k < e.len() && e[k] == d;
        if k < s.len() {
            assert(s[k] == d);
            assert(s.contains(d));
        }
    }
    assert forall|d: Seq<char>|
        d == info_file_name() || s.contains(d) implies #[trigger] e.contains(d) by {
        if d == info_file_name() {
            assert(e[s.len() as int] == d);
        } else {
            let k = choose|k: int| 0 <= k < s.len() && s[k] == d;
            assert(e[k] == d);
        }
    }
    if m.len() == 0 {
    } else {
        let t = m.drop_first();
        lemma_failed_sources_omitted(t, failed);
        assert forall|d: Seq<char>| #[trigger]
            surviving_dests(m, failed).contains(d) implies exists|i: int|
            0 <= i < m.len() && m[i].dest == d && !failed.contains(m[i].name) by {
            if failed.contains(m[0].name) {
                assert(surviving_dests(t, failed).contains(d));
                let j = choose|j: int| 0 <= j < t.len() && t[j].dest == d && !failed.contains(
                    t[j].name,
                );
                assert(m[j + 1].dest == d && !failed.contains(m[j + 1].name));
            } else {
                let s = seq![m[0].dest] + surviving_dests(t, failed);
                let k = choose|k: int| 0 <= k < s.len() && s[k] == d;
                if k == 0 {
                    assert(m[0].dest == d && !failed.contains(m[0].name));
                } else {
                    assert(surviving_dests(t, failed)[k - 1] == d);
                    assert(surviving_dests(t, failed).contains(d));
                    let j = choose|j: int| 0 <= j < t.len() && t[j].dest == d && !failed.contains(
                        t[j].name,
                    );
                    assert(m[j + 1].dest == d && !failed.contains(m[j + 1].name));
                }
            }
        }
        assert forall|d: Seq<char>|
            (exists|i: int| 0 <= i < m.len() && m[i].dest == d && !failed.contains(m[i].name))
            implies #[trigger] surviving_dests(m, failed).contains(d) by {
            let i = choose|i: int| 0 <= i < m.len() && m[i].dest == d && !failed.contains(
                m[i].name,
            );
            if i == 0 {
                let s = seq![m[0].dest] + surviving_dests(t, failed);
                assert(s[0] == d);
                assert(s.contains(d));
            } else {
                assert(t[i - 1].dest == d && !failed.contains(t[i - 1].name));
                assert(surviving_dests(t, failed).contains(d));
                if !failed.contains(m[0].name) {
                    let s = seq![m[0].dest] + surviving_dests(t, failed);
                    let k = choose|k: int| 0 <= k < surviving_dests(t, failed).len()
                        && surviving_dests(t, failed)[k] == d;
                    assert(s[k + 1] == d);
                    assert(s.contains(d));
                }
            }
        }
    }
}

/// Decides which names to archive, from the manifest and the set of
/// identifiers that failed: the destination of every source whose
/// identifier is not among the failed, then the host-information
/// file.
pub fn expected_members(manifest: &Vec<SourceDescriptor>, failed: &Vec<String>) -> (r: Vec<String>)
    ensures
        r@.map_values(|s: String| s@) == expected_members_spec(
            manifest@.map_values(|d: SourceDescriptor| d@),
            failed_set(failed@),
        ),
{
    let ghost m = manifest@.map_values(|d: SourceDescriptor| d@);
    let ghost fset = failed_set(failed@);
    let mut r: Vec<String> = Vec::new();
    let mut i: usize = 0;
    proof {
        assert(m.take(0) =~= Seq::<SourceSpec>::empty());
        assert(r@.map_values(|s: String| s@) =~= surviving_dests(m.take(0), fset));
    }
    while i < manifest.len()
        invariant
            i <= manifest@.len(),
            m == manifest@.map_values(|d: SourceDescriptor| d@),
            fset == failed_set(failed@),
            r@.map_values(|s: String| s@) == surviving_dests(m.take(i as int), fset),
        decreases manifest@.len() - i,
    {
        let keep = !contains_str(failed, manifest[i].name.as_str());
        if keep {
            r.push(manifest[i].destination_name.clone());
        }
        proof {
            lemma_surviving_dests_concat(m.take(i as int), seq![m[i as int]], fset);
            assert(m.take(i as int) + seq![m[i as int]] =~= m.take(i + 1));
            assert(seq![m[i as int]].drop_first() =~= Seq::<SourceSpec>::empty());
            assert(surviving_dests(Seq::<SourceSpec>::empty(), fset) =~= Seq::<Seq<char>>::empty());
            if keep {
                assert(surviving_dests(seq![m[i as int]], fset) =~= seq![m[i as int].dest]);
                assert(r@.map_values(|s: String| s@) =~= surviving_dests(m.take(i as int), fset)
                    + seq![m[i as int].dest]);
            } else {
                assert(surviving_dests(seq![m[i as int]], fset) =~= Seq::<Seq<char>>::empty());
                assert(surviving_dests(m.take(i as int), fset) + Seq::<Seq<char>>::empty()
                    =~= surviving_dests(m.take(i as int), fset));
            }
        }
        i = i + 1;
    }
    r.push(String::from_str(info_file()));
    proof {
        assert(m.take(m.len() as int) =~= m);
        assert(r@.map_values(|s: String| s@) =~= expected_members_spec(m, fset));
    }
    r
}

/// The set of identifiers held in a list of failed sources.
pub open spec fn failed_set(failed: Seq<String>) -> Set<Seq<char>> {
    Set::new(
        |x: Seq<char>| exists|k: int| 0 <= k < failed.len() && failed[k]@ == x,
    )
}

/// Whether a list of strings holds one equal to `s`.
pub fn contains_str(v: &Vec<String>, s: &str) -> (r: bool)
    ensures
        r == failed_set(v@).contains(s@),
{
    let mut i: usize = 0;
    while i < v.len()
        invariant
            i <= v@.len(),
            forall|k: int| 0 <= k < i ==> v@[k]@ != s@,
        decreases v@.len() - i,
    {
        if crate::text::str_eq(v[i].as_str(), s) {
            return true;
        }
        i = i + 1;
    }
    false
}

proof fn lemma_surviving_dests_concat(a: Seq<SourceSpec>, b: Seq<SourceSpec>, f: Set<Seq<char>>)
    ensures
        surviving_dests(a + b, f) == surviving_dests(a, f) + surviving_dests(b, f),
    decreases a.len(),
{
    if a.len() == 0 {
        assert(a + b =~= b);
        assert(Seq::<Seq<char>>::empty() + surviving_dests(b, f) =~= surviving_dests(b, f));
    } else {
        assert((a + b).drop_first() =~= a.drop_first() + b);
        lemma_surviving_dests_concat(a.drop_first(), b, f);
        assert((a + b)[0] == a[0]);
        if !f.contains(a[0].name) {
            assert(seq![a[0].dest] + (surviving_dests(a.drop_first(), f) + surviving_dests(b, f))
                =~= (seq![a[0].dest] + surviving_dests(a.drop_first(), f)) + surviving_dests(
                b,
                f,
            ));
        }
    }
}

/// The archive's path: the destination base, then a fixed prefix, the
/// run's Unix timestamp in decimal, and the compressed-archive
/// extension.
pub open spec fn archive_path_spec(base: Seq<char>, timestamp: nat) -> Seq<char> {
    base + "/pop-support_"@ + dec_rep(timestamp) + ".tar.xz"@
}

/// Builds the archive's path from the destination base and the run's
/// Unix timestamp.
pub fn archive_path(base: &str, timestamp: u64) -> (r: String)
    ensures
        r@ == archive_path_spec(base@, timestamp as nat),
{
    let mut r = String::from_str(base);
    r.append("/pop-support_");
    let ts = format_u64(timestamp);
    r.append(ts.as_str());
    r.append(".tar.xz");
    r
}

/// Runs started at different whole seconds name different archives;
/// two runs within one second may collide, a documented limitation.
pub proof fn lemma_archive_paths_distinct(base: Seq<char>, t1: nat, t2: nat)
    requires
        t1 != t2,
    ensures
        archive_path_spec(base, t1) != archive_path_spec(base, t2),
{
    lemma_dec_rep_injective(t1, t2);
    let p = base + "/pop-support_"@;
    let d1 = dec_rep(t1);
    let d2 = dec_rep(t2);
    let s1 = archive_path_spec(base, t1);
    let s2 = archive_path_spec(base, t2);
    if d1.len() == d2.len() {
        assert(exists|k: int| 0 <= k < d1.len() && d1[k] != d2[k]) by {
            if forall|k: int| 0 <= k < d1.len() ==> d1[k] == d2[k] {
                assert(d1 =~= d2);
            }
        }
        let k = choose|k: int| 0 <= k < d1.len() && d1[k] != d2[k];
        assert(s1[p.len() + k] == d1[k]);
        assert(s2[p.len() + k] == d2[k]);
    } else {
        assert(s1.len() != s2.len());
    }
}

/// The text of the host-information file: one line per field.
pub open spec fn system_info_text(
    model: Seq<char>,
    os: Seq<char>,
    kernel_version: Seq<char>,
    kernel_revision: Seq<char>,
) -> Seq<char> {
    "Model: "@ + model + "\nOS Version: "@ + os + "\nKernel Version: "@ + kernel_version
        + "\nKernel Revision: "@ + kernel_revision + "\n"@
}

/// Renders the host-information record as the text written into the
/// staging area.
pub fn render_system_info(info: &SupportInfo) -> (r: String)
    ensures
        r@ == system_info_text(
            info.model_and_version@,
            info.operating_system@,
            info.kernel_version@,
            info.kernel_revision@,
        ),
{
    let mut r = String::from_str("Model: ");
    r.append(info.model_and_version.as_str());
    r.append("\nOS Version: ");
    r.append(info.operating_system.as_str());
    r.append("\nKernel Version: ");
    r.append(info.kernel_version.as_str());
    r.append("\nKernel Revision: ");
    r.append(info.kernel_revision.as_str());
    r.append("\n");
    r
}


} // verus!
