//! The pool of presence connections and the fan-out of activity updates.

use vstd::prelude::*;
use crate::json::{clear_activity_args, clear_activity_text, set_activity_args, set_activity_text, Cmd};
use crate::slot::{Event, Session, SlotStatus};

verus! {

/// The number of well-known socket slots.
pub const SLOT_COUNT: u8 = 10;

/// The slots, in order, whose status is `Open`.
pub open spec fn open_slots(statuses: Seq<SlotStatus>) -> Seq<u8>
    decreases statuses.len(),
{
    if statuses.len() == 0 {
        Seq::empty()
    } else {
        let last = (statuses.len() - 1) as int;
        open_slots(statuses.drop_last()) + if statuses[last] == SlotStatus::Open {
            seq![last as u8]
        } else {
            Seq::empty()
        }
    }
}

/// Whether `out` hands `cmd` with `args` to exactly the open slots of
/// `statuses`, in slot order.
pub open spec fn delivers(out: Seq<(u8, Event)>, statuses: Seq<SlotStatus>, cmd: Cmd, args: Seq<u8>) -> bool {
    &&& out.len() == open_slots(statuses).len()
    &&& forall|k: int|
        0 <= k < out.len() ==> (#[trigger] out[k]).0 == open_slots(statuses)[k] && (out[k].1 matches Event::Send {
            cmd: c,
            args: a,
        } && c == cmd && a@ == args)
}

/// Every slot that `open_slots` names is open.
pub proof fn lemma_open_slots_are_open(statuses: Seq<SlotStatus>, k: int)
    requires
        statuses.len() <= 256,
        0 <= k < open_slots(statuses).len(),
    ensures
        (open_slots(statuses)[k] as int) < statuses.len(),
        statuses[open_slots(statuses)[k] as int] == SlotStatus::Open,
    decreases statuses.len(),
{
    let rest = statuses.drop_last();
    if k < open_slots(rest).len() {
        lemma_open_slots_are_open(rest, k);
    }
}

/// A broadcast reaches no slot that is not open, and so never a dead one.
pub proof fn lemma_broadcast_skips_dead(
    out: Seq<(u8, Event)>,
    statuses: Seq<SlotStatus>,
    cmd: Cmd,
    args: Seq<u8>,
    k: int,
)
    requires
        statuses.len() <= 256,
        delivers(out, statuses, cmd, args),
        0 <= k < out.len(),
    ensures
        statuses[out[k].0 as int] == SlotStatus::Open,
{
    lemma_open_slots_are_open(statuses, k);
}

/// The pool: the client it speaks for and the process it reports.
#[derive(Debug, Clone, Copy)]
pub struct Rpc {
    pub client_id: u64,
    pub pid: u32,
}

impl Rpc {
    pub fn new(client_id: u64, pid: u32) -> (r: Rpc)
        ensures
            r.client_id == client_id,
            r.pid == pid,
    {
        Rpc { client_id, pid }
    }

    /// One fresh connection per slot, slot `i` at index `i`.
    pub fn sessions(&self) -> (r: Vec<Session>)
        ensures
            r@.len() == SLOT_COUNT,
            forall|i: int|
                0 <= i < r@.len() ==> (#[trigger] r@[i]).id == i && r@[i].client_id == self.client_id
                    && r@[i].phase is Idle && r@[i].failures == 0,
    {
        let mut r: Vec<Session> = Vec::new();
        let mut id: u8 = 0;
        while id < SLOT_COUNT
            invariant
                id <= SLOT_COUNT,
                r@.len() == id,
                forall|i: int|
                    0 <= i < r@.len() ==> (#[trigger] r@[i]).id == i && r@[i].client_id
                        == self.client_id && r@[i].phase is Idle && r@[i].failures == 0,
            decreases SLOT_COUNT - id,
        {
            r.push(Session::new(id, self.client_id));
            id += 1;
        }
        r
    }

    /// `SET_ACTIVITY` with `activity` (a JSON text) for every open slot.
    pub fn set_activity(&self, activity: &Vec<u8>, statuses: &Vec<SlotStatus>) -> (r: Vec<(u8, Event)>)
        requires
            statuses@.len() <= 256,
        ensures
            delivers(r@, statuses@, Cmd::SetActivity, set_activity_text(self.pid, activity@)),
    {
        let args = set_activity_args(self.pid, activity);
        send_all(Cmd::SetActivity, &args, statuses)
    }

    /// `SET_ACTIVITY` without an activity for every open slot.
    pub fn clear_activity(&self, statuses: &Vec<SlotStatus>) -> (r: Vec<(u8, Event)>)
        requires
            statuses@.len() <= 256,
        ensures
            delivers(r@, statuses@, Cmd::SetActivity, clear_activity_text(self.pid)),
    {
        let args = clear_activity_args(self.pid);
        send_all(Cmd::SetActivity, &args, statuses)
    }
}

fn copy_bytes(v: &Vec<u8>) -> (r: Vec<u8>)
    ensures
        r@ == v@,
{
    let mut r: Vec<u8> = Vec::new();
    r.extend_from_slice(v.as_slice());
    assert(r@ =~= v@);
    r
}

/// `cmd` with `args` for each slot of `statuses` that is open; the others
/// are skipped.
fn send_all(cmd: Cmd, args: &Vec<u8>, statuses: &Vec<SlotStatus>) -> (r: Vec<(u8, Event)>)
    requires
        statuses@.len() <= 256,
    ensures
        delivers(r@, statuses@, cmd, args@),
{
    let mut r: Vec<(u8, Event)> = Vec::new();
    let mut i: usize = 0;
    while i < statuses.len()
        invariant
            statuses@.len() <= 256,
            i <= statuses@.len(),
            delivers(r@, statuses@.subrange(0, i as int), cmd, args@),
        decreases statuses@.len() - i,
    {
        let ghost before = r@;
        assert(statuses@.subrange(0, i + 1).drop_last() =~= statuses@.subrange(0, i as int));
        if statuses[i] == SlotStatus::Open {
            r.push((i as u8, Event::Send { cmd, args: copy_bytes(args) }));
        }
        i += 1;
        assert forall|k: int| 0 <= k < r@.len() implies (#[trigger] r@[k]).0 == open_slots(
            statuses@.subrange(0, i as int),
        )[k] && (r@[k].1 matches Event::Send { cmd: c, args: a } && c == cmd && a@ == args@) by {
            if k < before.len() {
                assert(r@[k] == before[k]);
            }
        }
    }
    assert(statuses@.subrange(0, i as int) =~= statuses@);
    r
}

} // verus!
