//! The service's operations. Each call takes its own fresh snapshot
//! of the OS process table and works against that snapshot alone, so
//! nothing is shared between calls and nothing acts on a stale id.

use vstd::prelude::*;

use crate::snapshot;
use crate::snapshot::ProcessRecord;
use crate::snapshot::RawProcess;
use crate::sysapi;

verus! {

/// The name of the host operating system: one of a small set of
/// platform identifiers, never empty, and the same for every call
/// within one run of the host.
pub fn get_os_name() -> (r: String)
    ensures
        r@.len() > 0,
{
    let s = sysapi::os_identifier();
    if s.as_str().unicode_len() > 0 {
        s
    } else {
        let u = String::from_str("unknown");
        proof {
            reveal_strlit("unknown");
        }
        u
    }
}

/// List the processes of a fresh snapshot of the OS process table:
/// one record per process, carrying the decimal form of its id and
/// the lower-case form of its name, in the enumeration order the OS
/// happened to give (the order means nothing).
pub fn list_processes() -> (rs: Vec<ProcessRecord>)
    ensures
        exists|raw: Seq<RawProcess>| snapshot::listing_of(raw, rs@),
{
    let sys = sysapi::new_system();
    let raw = sysapi::raw_processes(&sys);
    let rs = snapshot::records_of(&raw);
    proof {
        assert(snapshot::listing_of(raw@, rs@));
    }
    rs
}

/// Request the termination of the process the id string names, in a
/// fresh snapshot of the OS process table. The result is true only
/// when a process matching `id` stood in that snapshot and the OS
/// accepted the termination request; an id that no process matches
/// (in particular one already gone) gives false, a benign outcome,
/// not an error.
pub fn kill_by_id(id: &str) -> (r: bool)
    ensures
        r ==> exists|p: u32| snapshot::id_matches(p, id@),
{
    let sys = sysapi::new_system();
    let raw = sysapi::raw_processes(&sys);
    match snapshot::find_pid(&raw, id) {
        Some(p) => {
            let accepted = sysapi::kill_in(&sys, p);
            proof {
                assert(snapshot::id_matches(p, id@));
            }
            accepted
        },
        None => false,
    }
}

} // verus!
