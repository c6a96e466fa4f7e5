//! Decisions taken by the master when it starts the workers of a listener:
//! which slots to start and in what order, the records of the started
//! workers, the descriptor flags of the end handed to a child, and the
//! arguments a worker is started with.
use vstd::prelude::*;
use crate::config::{ListenerConfig, ListenerType};

verus! {

/// Descriptor flag that closes a descriptor when the process calls exec.
pub const FD_CLOEXEC: i32 = 1;

/// Why a worker could not be launched.
#[derive(Debug, PartialEq, Eq, Clone, Copy)]
pub enum LaunchError {
    /// The connected pair of stream ends could not be created.
    TransportCreation,
    /// The descriptor flags of the child's end hold bits that are not known.
    DescriptorFlags,
    /// The path of the running executable could not be found.
    PathResolution,
    /// The process could not be forked.
    ProcessSpawn,
    /// The stream could not be switched between blocking and nonblocking mode.
    ModeSwitch,
    /// The configuration could not be written to the started worker.
    Handshake,
}

/// The slots of `n` workers in the order they are started: `1, 2, ..., n-1`, then `0`.
pub open spec fn slot_order(n: nat) -> Seq<u16> {
    Seq::new((n - 1) as nat, |i: int| (i + 1) as u16).push(0u16)
}

/// The workers to start for one listener, and what their records share.
pub struct WorkerPlan {
    pub tag: String,
    pub listener_type: ListenerType,
    pub address: String,
    pub port: u16,
    /// The slot of each worker, in the order they are started.
    pub slots: Vec<u16>,
}

/// The master's record of one running worker, holding its channel.
pub struct Listener<C> {
    pub tag: String,
    pub index: u16,
    pub pid: i32,
    pub listener_type: ListenerType,
    pub address: String,
    pub port: u16,
    pub channel: C,
}

impl<C> Listener<C> {
    /// A record with the given fields.
    pub fn new(
        tag: String,
        index: u16,
        pid: i32,
        listener_type: ListenerType,
        address: String,
        port: u16,
        channel: C,
    ) -> (r: Self)
        ensures
            r.tag == tag,
            r.index == index,
            r.pid == pid,
            r.listener_type == listener_type,
            r.address == address,
            r.port == port,
            r.channel == channel,
    {
        Listener { tag, index, pid, listener_type, address, port, channel }
    }
}

/// The slots `1..n-1` then `0`.
fn start_order(n: u16) -> (r: Vec<u16>)
    requires
        n >= 1,
    ensures
        r@ == slot_order(n as nat),
{
    let mut slots: Vec<u16> = Vec::new();
    let mut i: u16 = 1;
    while i < n
        invariant
            1 <= i <= n,
            slots@ == Seq::new((i - 1) as nat, |j: int| (j + 1) as u16),
        decreases n - i,
    {
        slots.push(i);
        i = i + 1;
        assert(slots@ =~= Seq::new((i - 1) as nat, |j: int| (j + 1) as u16));
    }
    slots.push(0);
    slots
}

/// Plans the workers of a listener: nothing when its configuration does not
/// narrow to a protocol that workers serve, else one worker per slot.
pub fn plan_workers(tag: &str, ls: &ListenerConfig) -> (r: Option<WorkerPlan>)
    ensures
        r.is_some() == ls.narrows(),
        r matches Some(p) ==> {
            &&& p.tag@ == tag@
            &&& p.listener_type == ls.listener_type
            &&& p.address == ls.address
            &&& p.port == ls.port
            &&& p.slots@ == slot_order(ls.spec_workers())
        },
{
    let narrows = match ls.listener_type {
        ListenerType::HTTP => ls.to_http().is_some(),
        ListenerType::HTTPS => ls.to_tls().is_some(),
        ListenerType::TCP => false,
    };
    if !narrows {
        return None;
    }
    Some(WorkerPlan {
        tag: tag.to_owned(),
        listener_type: ls.listener_type,
        address: ls.address.clone(),
        port: ls.port,
        slots: start_order(ls.workers()),
    })
}

impl WorkerPlan {
    /// The record of the worker started `k`-th, with its process id and channel.
    pub fn listener<C>(&self, k: usize, pid: i32, channel: C) -> (r: Listener<C>)
        requires
            k < self.slots@.len(),
        ensures
            r.tag == self.tag,
            r.index == self.slots@[k as int],
            r.pid == pid,
            r.listener_type == self.listener_type,
            r.address == self.address,
            r.port == self.port,
            r.channel == channel,
    {
        Listener::new(self.tag.clone(), self.slots[k], pid, self.listener_type, self.address.clone(), self.port, channel)
    }
}

/// A listener's workers start one per slot: `n` of them, slots `0` to `n-1`
/// each exactly once; so the records built from the plan carry each index once,
/// and carry distinct process ids wherever the launches gave distinct ones.
pub proof fn lemma_plan_covers_slots(ls: ListenerConfig)
    ensures
        ls.spec_workers() >= 1,
        slot_order(ls.spec_workers()).len() == ls.spec_workers(),
        slot_order(ls.spec_workers()).no_duplicates(),
        forall|i: u16| #![trigger slot_order(ls.spec_workers()).contains(i)]
            slot_order(ls.spec_workers()).contains(i) <==> (i as nat) < ls.spec_workers(),
{
    let n = ls.spec_workers();
    let s = slot_order(n);
    assert(n <= u16::MAX);
    assert forall|a: int, b: int| 0 <= a < s.len() && 0 <= b < s.len() && a != b implies s[a] != s[b] by {
        if a < n - 1 && b < n - 1 {
        } else if a < n - 1 {
            assert(s[b] == 0u16);
        } else {
            assert(s[a] == 0u16);
        }
    }
    assert forall|i: u16| s.contains(i) <==> (i as nat) < n by {
        if (i as nat) < n {
            if i == 0 {
                assert(s[n - 1] == i);
            } else {
                assert(s[i - 1] == i);
            }
        }
    }
}

/// Whether one of `records` has index `i`.
pub open spec fn holds_index<C>(records: Seq<Listener<C>>, i: u16) -> bool {
    exists|k: int| 0 <= k < records.len() && #[trigger] records[k].index == i
}

/// The records of a listener's workers, the `k`-th built from the plan with
/// the `k`-th launch's process id: there are `n` of them, their indices are
/// `0` to `n-1` each exactly once, and their process ids are distinct
/// wherever the launches returned distinct ones.
pub proof fn lemma_records_cover_slots<C>(ls: ListenerConfig, plan: WorkerPlan, pids: Seq<i32>, records: Seq<Listener<C>>)
    requires
        plan.slots@ == slot_order(ls.spec_workers()),
        pids.len() == plan.slots@.len(),
        records.len() == plan.slots@.len(),
        forall|k: int| #![trigger records[k]] 0 <= k < records.len() ==> records[k].index == plan.slots@[k] && records[k].pid == pids[k],
    ensures
        records.len() == ls.spec_workers(),
        forall|a: int, b: int| 0 <= a < records.len() && 0 <= b < records.len() && a != b
            ==> #[trigger] records[a].index != #[trigger] records[b].index,
        forall|i: u16| (i as nat) < ls.spec_workers() ==> #[trigger] holds_index(records, i),
        pids.no_duplicates() ==> forall|a: int, b: int| 0 <= a < records.len() && 0 <= b < records.len() && a != b
            ==> #[trigger] records[a].pid != #[trigger] records[b].pid,
{
    lemma_plan_covers_slots(ls);
    let s = plan.slots@;
    assert forall|i: u16| (i as nat) < ls.spec_workers() implies #[trigger] holds_index(records, i) by {
        assert(s.contains(i));
        let k = choose|k: int| 0 <= k < s.len() && s[k] == i;
        assert(records[k].index == i);
    }
    assert forall|a: int, b: int| 0 <= a < records.len() && 0 <= b < records.len() && a != b
        implies #[trigger] records[a].index != #[trigger] records[b].index by {
        assert(records[a].index == s[a]);
        assert(records[b].index == s[b]);
    }
    if pids.no_duplicates() {
        assert forall|a: int, b: int| 0 <= a < records.len() && 0 <= b < records.len() && a != b
            implies #[trigger] records[a].pid != #[trigger] records[b].pid by {
            assert(records[a].pid == pids[a]);
            assert(records[b].pid == pids[b]);
        }
    }
}

/// Relies on nix::fcntl::FdFlag, a bitflags type whose only flag is
/// FD_CLOEXEC (1): `from_bits` accepts a word only when it holds no other bit,
/// `remove` clears FD_CLOEXEC, and `bits` gives the word back.
#[verifier::external_body]
fn flags_without_cloexec(flags: i32) -> (r: Option<i32>)
    ensures
        r == (if flags == 0 || flags == 1 { Some(0i32) } else { None::<i32> }),
{
    match nix::fcntl::FdFlag::from_bits(flags) {
        Some(mut f) => {
            f.remove(nix::fcntl::FdFlag::FD_CLOEXEC);
            Some(f.bits())
        },
        None => None,
    }
}

/// The descriptor flags that keep the child's end of the pair open across
/// exec: the same flags with FD_CLOEXEC cleared. Flags that are not known
/// are refused.
pub fn inheritable_flags(flags: i32) -> (r: Result<i32, LaunchError>)
    ensures
        r == (if flags == 0 || flags == FD_CLOEXEC {
            Ok::<i32, LaunchError>(0)
        } else {
            Err(LaunchError::DescriptorFlags)
        }),
        flags & !FD_CLOEXEC == 0 <==> r is Ok,
        r matches Ok(f) ==> f == flags & !FD_CLOEXEC,
        r matches Ok(f) ==> f & FD_CLOEXEC == 0,
{
    assert((flags & !1i32 == 0) <==> (flags == 0 || flags == 1)) by (bit_vector);
    assert((flags == 0 || flags == 1) ==> flags & !1i32 == 0i32) by (bit_vector);
    assert(0i32 & 1i32 == 0i32) by (bit_vector);
    match flags_without_cloexec(flags) {
        Some(f) => Ok(f),
        None => Err(LaunchError::DescriptorFlags),
    }
}

/// The arguments a worker process is started with, after the executable's path.
pub open spec fn spec_worker_arguments(fd: Seq<char>, tag: Seq<char>, id: Seq<char>) -> Seq<Seq<char>> {
    seq!["worker"@, "--fd"@, fd, "--tag"@, tag, "--id"@, id]
}

/// See `spec_worker_arguments`; `fd` is the decimal number of the child's descriptor.
pub fn worker_arguments(fd: &str, tag: &str, id: &str) -> (r: Vec<String>)
    ensures
        r@.map_values(|s: String| s@) == spec_worker_arguments(fd@, tag@, id@),
{
    let mut args: Vec<String> = Vec::new();
    args.push("worker".to_owned());
    args.push("--fd".to_owned());
    args.push(fd.to_owned());
    args.push("--tag".to_owned());
    args.push(tag.to_owned());
    args.push("--id".to_owned());
    args.push(id.to_owned());
    assert(args@.map_values(|s: String| s@) =~= spec_worker_arguments(fd@, tag@, id@));
    args
}

} // verus!
