//! The point-in-time view of the process table and the two operations
//! the service runs against it: turning a snapshot into the records it
//! reports, and looking a process up by its id string.

use vstd::prelude::*;

use crate::casefold;
use crate::decimal;
use crate::sysapi;

verus! {

/// One process as the snapshot holds it: the numeric id and the name
/// the OS reported, untouched.
pub struct RawProcess {
    pub pid: u32,
    pub name: String,
}

/// One process as the service reports it: the id rendered in decimal,
/// the name normalized to lower case. A record is an observation of
/// one snapshot instant, never a live handle.
pub struct ProcessRecord {
    pub id: String,
    pub name: String,
}

/// Whether the id string `id` names the process id `pid`: it equals
/// the decimal form of `pid` up to ASCII case.
pub open spec fn id_matches(pid: u32, id: Seq<char>) -> bool {
    casefold::eq_fold(decimal::dec_str(pid as nat), id)
}

/// Whether `rs` reports exactly the processes of the snapshot `raw`,
/// in its order: each record carries the decimal form of the id and
/// the lower-case form of the name.
pub open spec fn listing_of(raw: Seq<RawProcess>, rs: Seq<ProcessRecord>) -> bool {
    &&& rs.len() == raw.len()
    &&& forall|i: int|
        0 <= i < raw.len() ==> (#[trigger] rs[i]).id@ == decimal::dec_str(raw[i].pid as nat)
            && rs[i].name@ == sysapi::lower_of(raw[i].name@)
}

/// Report every process of the snapshot.
pub fn records_of(raw: &Vec<RawProcess>) -> (rs: Vec<ProcessRecord>)
    ensures
        listing_of(raw@, rs@),
{
    let mut rs: Vec<ProcessRecord> = Vec::new();
    let mut i: usize = 0;
    while i < raw.len()
        invariant
            i <= raw@.len(),
            rs@.len() == i,
            forall|j: int|
                0 <= j < i ==> (#[trigger] rs@[j]).id@ == decimal::dec_str(raw@[j].pid as nat)
                    && rs@[j].name@ == sysapi::lower_of(raw@[j].name@),
        decreases raw@.len() - i,
    {
        let id = decimal::u32_to_dec(raw[i].pid);
        let name = sysapi::lowercase(raw[i].name.as_str());
        rs.push(ProcessRecord { id, name });
        i = i + 1;
    }
    rs
}

/// Look up the process the id string names in the snapshot: the
/// numeric id whose decimal form equals `id` up to ASCII case, if the
/// snapshot holds a process under it.
pub fn find_pid(raw: &Vec<RawProcess>, id: &str) -> (r: Option<u32>)
    ensures
        match r {
            Some(p) => exists|i: int|
                0 <= i < raw@.len() && (#[trigger] raw@[i]).pid == p && id_matches(p, id@),
            None => forall|i: int|
                0 <= i < raw@.len() ==> !id_matches((#[trigger] raw@[i]).pid, id@),
        },
{
    let mut i: usize = 0;
    while i < raw.len()
        invariant
            i <= raw@.len(),
            forall|j: int| 0 <= j < i ==> !id_matches((#[trigger] raw@[j]).pid, id@),
        decreases raw@.len() - i,
    {
        let pid = raw[i].pid;
        let dec = decimal::u32_to_dec(pid);
        if casefold::str_eq_fold(dec.as_str(), id) {
            return Some(pid);
        }
        i = i + 1;
    }
    None
}

/// At most one numeric process id can be named by a given id string:
/// matching is injective because distinct numbers have distinct
/// decimal forms and case folding leaves digits unchanged.
pub proof fn lemma_match_unique(p1: u32, p2: u32, id: Seq<char>)
    requires
        id_matches(p1, id),
        id_matches(p2, id),
    ensures
        p1 == p2,
{
    let d1 = decimal::dec_str(p1 as nat);
    let d2 = decimal::dec_str(p2 as nat);
    casefold::lemma_eq_fold_symmetric(d2, id);
    casefold::lemma_eq_fold_transitive(d1, id, d2);
    decimal::lemma_dec_str_digits(p1 as nat);
    decimal::lemma_dec_str_digits(p2 as nat);
    casefold::lemma_eq_fold_digits(d1, d2);
    decimal::lemma_dec_str_injective(p1 as nat, p2 as nat);
}

/// Two id strings equal up to ASCII case name exactly the same
/// processes, so a kill request behaves the same for either spelling.
pub proof fn lemma_match_case_insensitive(id1: Seq<char>, id2: Seq<char>)
    requires
        casefold::eq_fold(id1, id2),
    ensures
        forall|p: u32| id_matches(p, id1) <==> id_matches(p, id2),
{
    assert forall|p: u32| id_matches(p, id1) <==> id_matches(p, id2) by {
        let d = decimal::dec_str(p as nat);
        casefold::lemma_eq_fold_symmetric(id1, id2);
        if casefold::eq_fold(d, id1) {
            casefold::lemma_eq_fold_transitive(d, id1, id2);
        }
        if casefold::eq_fold(d, id2) {
            casefold::lemma_eq_fold_transitive(d, id2, id1);
        }
    }
}

/// A second kill with the same id finds nothing: once the process the
/// id named is out of the process table, no process of a later
/// snapshot can match that id, whatever else started meanwhile.
pub proof fn lemma_kill_idempotent(later: Seq<RawProcess>, id: Seq<char>, p: u32)
    requires
        id_matches(p, id),
        forall|i: int| 0 <= i < later.len() ==> (#[trigger] later[i]).pid != p,
    ensures
        forall|i: int| 0 <= i < later.len() ==> !id_matches((#[trigger] later[i]).pid, id),
{
    assert forall|i: int| 0 <= i < later.len() implies !id_matches(
        (#[trigger] later[i]).pid,
        id,
    ) by {
        if id_matches(later[i].pid, id) {
            lemma_match_unique(later[i].pid, p, id);
        }
    }
}

/// Within one snapshot the reported id strings are as distinct as the
/// numeric ids they render: a snapshot with no repeated numeric id
/// yields a listing with no repeated id string.
pub proof fn lemma_listing_ids_unique(raw: Seq<RawProcess>, rs: Seq<ProcessRecord>)
    requires
        listing_of(raw, rs),
        forall|i: int, j: int|
            0 <= i < j < raw.len() ==> (#[trigger] raw[i]).pid != (#[trigger] raw[j]).pid,
    ensures
        forall|i: int, j: int|
            0 <= i < j < rs.len() ==> (#[trigger] rs[i]).id@ != (#[trigger] rs[j]).id@,
{
    assert forall|i: int, j: int| 0 <= i < j < rs.len() implies (#[trigger] rs[i]).id@ != (
    #[trigger] rs[j]).id@ by {
        if rs[i].id@ == rs[j].id@ {
            decimal::lemma_dec_str_injective(raw[i].pid as nat, raw[j].pid as nat);
        }
    }
}

} // verus!
