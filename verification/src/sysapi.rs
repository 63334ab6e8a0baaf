//! The trusted boundary: the calls into the operating-system-facing
//! library (and one call into std) that the service relies on. Verus
//! believes the contracts stated here; everything built on top of them
//! is verified.

use vstd::multiset::Multiset;
use vstd::prelude::*;

use crate::snapshot::RawProcess;

verus! {

#[verifier::external_type_specification]
#[verifier::external_body]
pub struct ExSystem(sysinfo::System);

/// The processes a snapshot holds, as a bag of pairs of a numeric
/// process id and the process name the OS reported for it.
pub uninterp spec fn sys_procs(s: sysinfo::System) -> Multiset<(u32, Seq<char>)>;

/// The lower-case form of a string.
pub uninterp spec fn lower_of(s: Seq<char>) -> Seq<char>;

/// Relies on str::to_lowercase: the result depends on the characters
/// of the input alone.
#[verifier::external_body]
pub(crate) fn lowercase(s: &str) -> (r: String)
    ensures
        r@ == lower_of(s@),
{
    s.to_lowercase()
}

/// Relies on sysinfo::System::new_all: a snapshot of the host, with
/// the current process table loaded.
#[verifier::external_body]
pub(crate) fn new_system() -> (s: sysinfo::System)
{
    sysinfo::System::new_all()
}

/// Relies on sysinfo::System::processes: the map of the snapshot's
/// processes, keyed by id; each entry is converted to a plain pair of
/// the numeric id and the reported name.
#[verifier::external_body]
pub(crate) fn raw_processes(sys: &sysinfo::System) -> (v: Vec<RawProcess>)
    ensures
        v@.map_values(|r: RawProcess| (r.pid, r.name@)).to_multiset() == sys_procs(*sys),
{
    let mut v = Vec::new();
    for (pid, p) in sys.processes() {
        v.push(RawProcess { pid: pid.as_u32(), name: p.name().to_string_lossy().to_string() });
    }
    v
}

/// Relies on sysinfo::System::process and sysinfo::Process::kill: the
/// termination signal is sent to the process the snapshot holds under
/// this id, and the result says whether the OS accepted it; with no
/// such process nothing is sent and the result is false.
#[verifier::external_body]
pub(crate) fn kill_in(sys: &sysinfo::System, pid: u32) -> (r: bool)
    ensures
        r ==> exists|n: Seq<char>| sys_procs(*sys).contains((pid, n)),
{
    match sys.process(sysinfo::Pid::from_u32(pid)) {
        Some(p) => p.kill(),
        None => false,
    }
}

/// Relies on sysinfo::System::distribution_id: an identifier of the
/// host operating system (the os-release distribution id where there
/// is one, the platform's name otherwise).
#[verifier::external_body]
pub(crate) fn os_identifier() -> (r: String)
{
    sysinfo::System::distribution_id()
}

} // verus!
