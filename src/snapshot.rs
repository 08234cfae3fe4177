//! One snapshot of the process table, turned into presentation records.
//!
//! Every lookup a record needs (its parent's name, its owner's name) is made
//! against data handed in with the snapshot, never against a newer query.
//! Anything that cannot be found or decoded becomes a fixed placeholder.

use vstd::prelude::*;

use crate::percent::{cpu_chars, cpu_text, memory_chars, memory_text};

verus! {

/// What the operating system reported of one live process.
#[derive(Clone, Debug)]
pub struct RawProcess {
    pub pid: u32,
    /// The parent's pid, if the process has a parent.
    pub parent: Option<u32>,
    /// The executable name; `None` when it is not valid Unicode.
    pub name: Option<String>,
    /// The owning user's id, if the process has one.
    pub user_id: Option<u32>,
    /// Resident memory in bytes.
    pub memory: u64,
    /// CPU usage over the sampling interval, in millionths of one core.
    pub cpu_usage_ppm: u64,
}

/// One row of the user table.
#[derive(Clone, Debug)]
pub struct UserEntry {
    pub id: u32,
    pub name: String,
}

/// A process as presented to the user.
#[derive(Clone, Debug)]
pub struct Proc {
    pub pid: u32,
    pub name: String,
    pub user: String,
    pub parent: String,
    pub memory: String,
    pub cpu: String,
}

pub struct ProcView {
    pub pid: u32,
    pub name: Seq<char>,
    pub user: Seq<char>,
    pub parent: Seq<char>,
    pub memory: Seq<char>,
    pub cpu: Seq<char>,
}

impl View for Proc {
    type V = ProcView;

    open spec fn view(&self) -> ProcView {
        ProcView {
            pid: self.pid,
            name: self.name@,
            user: self.user@,
            parent: self.parent@,
            memory: self.memory@,
            cpu: self.cpu@,
        }
    }
}

/// `j` is the first position of `procs` that holds `pid`.
pub open spec fn first_with_pid(procs: Seq<RawProcess>, pid: u32, j: int) -> bool {
    &&& 0 <= j < procs.len()
    &&& procs[j].pid == pid
    &&& forall|k: int| 0 <= k < j ==> procs[k].pid != pid
}

/// `j` is the first row of `users` with id `id`.
pub open spec fn first_with_uid(users: Seq<UserEntry>, id: u32, j: int) -> bool {
    &&& 0 <= j < users.len()
    &&& users[j].id == id
    &&& forall|k: int| 0 <= k < j ==> users[k].id != id
}

/// The name shown for a process itself.
pub open spec fn own_name(raw: RawProcess) -> Seq<char> {
    match raw.name {
        Some(n) => n@,
        None => "Unknown Name"@,
    }
}

/// The name shown for a parent `parent`, looked up in `procs`.
pub open spec fn parent_label(procs: Seq<RawProcess>, parent: Option<u32>) -> Seq<char> {
    match parent {
        Some(p) => if exists|j: int| first_with_pid(procs, p, j) {
            let j = choose|j: int| first_with_pid(procs, p, j);
            match procs[j].name {
                Some(n) => n@,
                None => "Not Found"@,
            }
        } else {
            "Not Found"@
        },
        None => "Not Found"@,
    }
}

/// The name shown for the owner `user_id`, looked up in `users`.
pub open spec fn user_label(users: Seq<UserEntry>, user_id: Option<u32>) -> Seq<char> {
    match user_id {
        Some(id) => if exists|j: int| first_with_uid(users, id, j) {
            users[choose|j: int| first_with_uid(users, id, j)].name@
        } else {
            "Unknown"@
        },
        None => "Unknown"@,
    }
}

/// The record shown for `raw`, a process of the snapshot `procs`.
pub open spec fn proc_model(
    raw: RawProcess,
    procs: Seq<RawProcess>,
    users: Seq<UserEntry>,
    total_memory: u64,
    cpu_count: usize,
) -> ProcView {
    ProcView {
        pid: raw.pid,
        name: own_name(raw),
        user: user_label(users, raw.user_id),
        parent: parent_label(procs, raw.parent),
        memory: memory_chars(raw.memory as nat, total_memory as nat),
        cpu: cpu_chars(raw.cpu_usage_ppm as nat, cpu_count as nat),
    }
}

/// The records shown for the snapshot `procs`, one per process, in order.
pub open spec fn snapshot_model(
    procs: Seq<RawProcess>,
    users: Seq<UserEntry>,
    total_memory: u64,
    cpu_count: usize,
) -> Seq<ProcView> {
    Seq::new(procs.len(), |i: int| proc_model(procs[i], procs, users, total_memory, cpu_count))
}

fn find_pid(procs: &Vec<RawProcess>, pid: u32) -> (r: Option<usize>)
    ensures
        match r {
            Some(j) => first_with_pid(procs@, pid, j as int),
            None => forall|k: int| 0 <= k < procs@.len() ==> procs@[k].pid != pid,
        },
{
    let mut i: usize = 0;
    while i < procs.len()
        invariant
            i <= procs@.len(),
            forall|k: int| 0 <= k < i ==> procs@[k].pid != pid,
        decreases procs@.len() - i,
    {
        if procs[i].pid == pid {
            return Some(i);
        }
        i = i + 1;
    }
    None
}

fn find_uid(users: &Vec<UserEntry>, id: u32) -> (r: Option<usize>)
    ensures
        match r {
            Some(j) => first_with_uid(users@, id, j as int),
            None => forall|k: int| 0 <= k < users@.len() ==> users@[k].id != id,
        },
{
    let mut i: usize = 0;
    while i < users.len()
        invariant
            i <= users@.len(),
            forall|k: int| 0 <= k < i ==> users@[k].id != id,
        decreases users@.len() - i,
    {
        if users[i].id == id {
            return Some(i);
        }
        i = i + 1;
    }
    None
}

/// The name of a process itself, or `"Unknown Name"` when it did not decode.
pub fn process_name(raw: &RawProcess) -> (r: String)
    ensures
        r@ == own_name(*raw),
{
    match &raw.name {
        Some(n) => n.clone(),
        None => String::from_str("Unknown Name"),
    }
}

/// The name of the parent `parent` as it stands in `procs`, or `"Not Found"`
/// when there is no parent, it is not in `procs`, or its name did not decode.
pub fn parent_name(procs: &Vec<RawProcess>, parent: Option<u32>) -> (r: String)
    ensures
        r@ == parent_label(procs@, parent),
        parent is None ==> r@ == "Not Found"@,
{
    match parent {
        Some(p) => match find_pid(procs, p) {
            Some(j) => {
                proof {
                    let c = choose|c: int| first_with_pid(procs@, p, c);
                    assert(first_with_pid(procs@, p, j as int));
                    if c < j {
                        assert(procs@[c].pid != p);
                    } else if j < c {
                        assert(procs@[j as int].pid != p);
                    }
                }
                match &procs[j].name {
                    Some(n) => n.clone(),
                    None => String::from_str("Not Found"),
                }
            },
            None => String::from_str("Not Found"),
        },
        None => String::from_str("Not Found"),
    }
}

/// The name of the user `user_id` in `users`, or `"Unknown"` when there is
/// no user id or no such user.
pub fn user_name(users: &Vec<UserEntry>, user_id: Option<u32>) -> (r: String)
    ensures
        r@ == user_label(users@, user_id),
{
    match user_id {
        Some(id) => match find_uid(users, id) {
            Some(j) => {
                proof {
                    let c = choose|c: int| first_with_uid(users@, id, c);
                    assert(first_with_uid(users@, id, j as int));
                    if c < j {
                        assert(users@[c].id != id);
                    } else if j < c {
                        assert(users@[j as int].id != id);
                    }
                }
                users[j].name.clone()
            },
            None => String::from_str("Unknown"),
        },
        None => String::from_str("Unknown"),
    }
}

impl Proc {
    /// The record of `raw`, a process of the snapshot `procs`, with owners
    /// looked up in `users`, memory as a share of `total_memory` bytes and CPU
    /// usage spread over `cpu_count` cores.
    pub fn new(
        raw: &RawProcess,
        procs: &Vec<RawProcess>,
        users: &Vec<UserEntry>,
        total_memory: u64,
        cpu_count: usize,
    ) -> (r: Proc)
        ensures
            r@ == proc_model(*raw, procs@, users@, total_memory, cpu_count),
    {
        Proc {
            pid: raw.pid,
            name: process_name(raw),
            user: user_name(users, raw.user_id),
            parent: parent_name(procs, raw.parent),
            memory: memory_text(raw.memory, total_memory),
            cpu: cpu_text(raw.cpu_usage_ppm, cpu_count),
        }
    }
}

/// The records of the snapshot `procs`, one per process and in the same
/// order, each built as [`Proc::new`] builds it.
pub fn collect_procs(
    procs: &Vec<RawProcess>,
    users: &Vec<UserEntry>,
    total_memory: u64,
    cpu_count: usize,
) -> (r: Vec<Proc>)
    ensures
        r@.len() == procs@.len(),
        forall|i: int|
            0 <= i < r@.len() ==> r@[i]@ == #[trigger] snapshot_model(
                procs@,
                users@,
                total_memory,
                cpu_count,
            )[i],
{
    let mut out: Vec<Proc> = Vec::new();
    let mut i: usize = 0;
    while i < procs.len()
        invariant
            i <= procs@.len(),
            out@.len() == i,
            forall|k: int|
                0 <= k < i ==> out@[k]@ == proc_model(
                    procs@[k],
                    procs@,
                    users@,
                    total_memory,
                    cpu_count,
                ),
        decreases procs@.len() - i,
    {
        let p = Proc::new(&procs[i], procs, users, total_memory, cpu_count);
        out.push(p);
        i = i + 1;
    }
    out
}

/// A process that both of two snapshots report is listed, under its pid, in
/// the records of each.
pub proof fn lemma_pid_listed_in_both(
    first: Seq<RawProcess>,
    second: Seq<RawProcess>,
    users_first: Seq<UserEntry>,
    users_second: Seq<UserEntry>,
    memory_first: u64,
    memory_second: u64,
    cpus_first: usize,
    cpus_second: usize,
    pid: u32,
)
    requires
        exists|i: int| 0 <= i < first.len() && first[i].pid == pid,
        exists|i: int| 0 <= i < second.len() && second[i].pid == pid,
    ensures
        exists|i: int|
            0 <= i < first.len() && (#[trigger] snapshot_model(
                first,
                users_first,
                memory_first,
                cpus_first,
            )[i]).pid == pid,
        exists|i: int|
            0 <= i < second.len() && (#[trigger] snapshot_model(
                second,
                users_second,
                memory_second,
                cpus_second,
            )[i]).pid == pid,
{
    let a = choose|i: int| 0 <= i < first.len() && first[i].pid == pid;
    let b = choose|i: int| 0 <= i < second.len() && second[i].pid == pid;
    assert(snapshot_model(first, users_first, memory_first, cpus_first)[a].pid == pid);
    assert(snapshot_model(second, users_second, memory_second, cpus_second)[b].pid == pid);
}

} // verus!
