//! The poller's bookkeeping: which local pads the remote host mirrors, under
//! which handles and slots, and what each tick's events do to them.
use crate::commands::{data_frame, data_items, Command, WriteCommand};
use crate::models::{AttachResponse, Controller, Rumble};
use vstd::prelude::*;

verus! {

/// The handle of the pad whose backend id is `raw_id`.
pub open spec fn handle_of(raw_id: usize) -> int {
    (raw_id as int % (i32::MAX - 1)) + 1
}

/// A pad's handle: its backend id reduced below `i32::MAX - 1`, plus one,
/// so that it is strictly positive.
pub fn gamepad_id_to_handle(raw_id: usize) -> (r: i32)
    ensures
        r == handle_of(raw_id),
        1 <= r < i32::MAX,
{
    let max = (i32::MAX - 1) as usize;
    ((raw_id % max) as i32) + 1
}

/// Whether an answer gave the pad usable slots.
pub open spec fn slots_usable(response: AttachResponse) -> bool {
    response.device_slot >= 0 && response.pad_slot >= 0
}

/// The controller that an attach answer makes of the pad `raw_id`: one with
/// the answer's slots when both are non-negative, none otherwise.
pub open spec fn attach_result(raw_id: usize, reply: Option<AttachResponse>) -> Option<Controller> {
    match reply {
        Some(response) => if slots_usable(response) {
            Some(
                Controller {
                    id: raw_id,
                    handle: handle_of(raw_id) as i32,
                    device_slot: response.device_slot,
                    pad_slot: response.pad_slot,
                },
            )
        } else {
            None
        },
        None => None,
    }
}

/// Turns the answer to an attach request for the pad `raw_id` into a
/// controller, or into nothing when the request failed or the slots are
/// negative.
pub fn attached_controller(raw_id: usize, reply: Option<AttachResponse>) -> (r: Option<Controller>)
    ensures
        r == attach_result(raw_id, reply),
{
    match reply {
        Some(response) => {
            if response.device_slot < 0 || response.pad_slot < 0 {
                None
            } else {
                Some(
                    Controller {
                        id: raw_id,
                        handle: gamepad_id_to_handle(raw_id),
                        device_slot: response.device_slot,
                        pad_slot: response.pad_slot,
                    },
                )
            }
        },
        None => None,
    }
}

/// What the controllers of a valid set satisfy: each was attached with
/// non-negative slots under its own handle, no pad is in it twice, and no
/// two controllers share a handle.
pub open spec fn set_valid(s: Seq<Controller>) -> bool {
    &&& forall|i: int| 0 <= i < s.len() ==> controller_valid(#[trigger] s[i])
    &&& forall|i: int, j: int|
        0 <= i < s.len() && 0 <= j < s.len() && i != j ==> #[trigger] s[i].id != #[trigger] s[j].id
    &&& forall|i: int, j: int|
        0 <= i < s.len() && 0 <= j < s.len() && i != j ==> #[trigger] s[i].handle
            != #[trigger] s[j].handle
}

/// Whether a controller in `s` goes by `handle`.
pub open spec fn holds_handle(s: Seq<Controller>, handle: int) -> bool {
    exists|i: int| 0 <= i < s.len() && #[trigger] s[i].handle == handle
}

/// A controller as an attach answer makes it: non-negative slots, and the
/// handle of its pad.
pub open spec fn controller_valid(c: Controller) -> bool {
    c.device_slot >= 0 && c.pad_slot >= 0 && c.handle == handle_of(c.id)
}

/// Whether the pad `raw_id` is in `s`.
pub open spec fn holds_id(s: Seq<Controller>, raw_id: usize) -> bool {
    exists|i: int| 0 <= i < s.len() && #[trigger] s[i].id == raw_id
}

/// What a rumble order asks of the local pads.
#[derive(Clone, Copy, Debug, PartialEq, Eq, Structural)]
pub enum RumbleAction {
    /// Play the effect of the pad with this backend id.
    Play(usize),
    /// Stop the effect of the pad with this backend id.
    Stop(usize),
}

/// The pads the poller mirrors, in the order they were attached.
pub struct ControllerSet {
    controllers: Vec<Controller>,
}

impl View for ControllerSet {
    type V = Seq<Controller>;

    closed spec fn view(&self) -> Seq<Controller> {
        self.controllers@
    }
}

/// Every controller the poller holds has non-negative slots.
pub proof fn held_controllers_have_slots(s: Seq<Controller>, i: int)
    requires
        set_valid(s),
        0 <= i < s.len(),
    ensures
        s[i].device_slot >= 0,
        s[i].pad_slot >= 0,
{
    assert(controller_valid(s[i]));
}

impl ControllerSet {
    /// The set holds only validly attached controllers.
    pub open spec fn wf(&self) -> bool {
        set_valid(self@)
    }

    pub fn new() -> (r: ControllerSet)
        ensures
            r.wf(),
            r@ == Seq::<Controller>::empty(),
    {
        ControllerSet { controllers: Vec::new() }
    }

    pub fn len(&self) -> (r: usize)
        ensures
            r == self@.len(),
    {
        self.controllers.len()
    }

    /// The controllers, in the order they were attached.
    pub fn controllers(&self) -> (r: &Vec<Controller>)
        ensures
            r@ == self@,
    {
        &self.controllers
    }

    /// Whether the pad `raw_id` is held.
    pub fn contains_id(&self, raw_id: usize) -> (r: bool)
        ensures
            r == holds_id(self@, raw_id),
    {
        let mut i: usize = 0;
        while i < self.controllers.len()
            invariant
                i <= self.controllers@.len(),
                forall|j: int| 0 <= j < i ==> self.controllers@[j].id != raw_id,
            decreases self.controllers@.len() - i,
        {
            if self.controllers[i].id == raw_id {
                return true;
            }
            i = i + 1;
        }
        false
    }

    /// The position of the first controller with this handle.
    pub fn find_by_handle(&self, handle: i32) -> (r: Option<usize>)
        ensures
            match r {
                Some(i) => i < self@.len() && self@[i as int].handle == handle && forall|j: int|
                    0 <= j < i ==> self@[j].handle != handle,
                None => forall|j: int| 0 <= j < self@.len() ==> self@[j].handle != handle,
            },
    {
        let mut i: usize = 0;
        while i < self.controllers.len()
            invariant
                i <= self.controllers@.len(),
                forall|j: int| 0 <= j < i ==> self.controllers@[j].handle != handle,
            decreases self.controllers@.len() - i,
        {
            if self.controllers[i].handle == handle {
                return Some(i);
            }
            i = i + 1;
        }
        None
    }

    /// What a rumble order does: it starts or stops the effect of the
    /// controller with its handle, and does nothing when no controller has
    /// it.
    pub fn rumble_action(&self, order: Rumble) -> (r: Option<RumbleAction>)
        ensures
            match order {
                Rumble::Start(h) | Rumble::Stop(h) => {
                    &&& r is None <==> forall|j: int| 0 <= j < self@.len() ==> self@[j].handle != h
                    &&& r is Some ==> exists|i: int|
                        0 <= i < self@.len() && self@[i].handle == h && (forall|j: int|
                            0 <= j < i ==> self@[j].handle != h) && r == Some(
                            if order is Start {
                                RumbleAction::Play(self@[i].id)
                            } else {
                                RumbleAction::Stop(self@[i].id)
                            },
                        )
                },
            },
    {
        let (handle, start) = match order {
            Rumble::Start(h) => (h, true),
            Rumble::Stop(h) => (h, false),
        };
        match self.find_by_handle(handle) {
            Some(i) => {
                let id = self.controllers[i].id;
                if start {
                    Some(RumbleAction::Play(id))
                } else {
                    Some(RumbleAction::Stop(id))
                }
            },
            None => None,
        }
    }

    /// Adds the pad `raw_id` with the slots of its attach answer. Nothing is
    /// added when the pad, or another pad with its handle, is already held,
    /// when the request failed, or when a slot is negative; the result says
    /// whether it was added.
    pub fn add_attached(&mut self, raw_id: usize, reply: Option<AttachResponse>) -> (r: bool)
        requires
            old(self).wf(),
        ensures
            r == (!holds_id(old(self)@, raw_id) && !holds_handle(old(self)@, handle_of(raw_id))
                && attach_result(raw_id, reply) is Some),
            r ==> final(self)@ == old(self)@.push(attach_result(raw_id, reply).unwrap()),
            !r ==> final(self)@ == old(self)@,
            final(self).wf(),
    {
        if self.contains_id(raw_id) {
            return false;
        }
        if self.find_by_handle(gamepad_id_to_handle(raw_id)).is_some() {
            return false;
        }
        match attached_controller(raw_id, reply) {
            Some(controller) => {
                let ghost before = self.controllers@;
                self.controllers.push(controller);
                proof {
                    let after = self.controllers@;
                    assert forall|i: int, j: int|
                        0 <= i < after.len() && 0 <= j < after.len() && i != j implies #[trigger] after[i].handle
                        != #[trigger] after[j].handle by {
                        if i < before.len() && j < before.len() {
                            assert(after[i] == before[i] && after[j] == before[j]);
                        } else if i < before.len() {
                            assert(after[i] == before[i]);
                        } else {
                            assert(after[j] == before[j]);
                        }
                    }
                    assert forall|i: int, j: int|
                        0 <= i < after.len() && 0 <= j < after.len() && i != j implies #[trigger] after[i].id
                        != #[trigger] after[j].id by {
                        if i < before.len() && j < before.len() {
                            assert(after[i] == before[i] && after[j] == before[j]);
                        } else if i < before.len() {
                            assert(after[i] == before[i]);
                        } else {
                            assert(after[j] == before[j]);
                        }
                    }
                }
                true
            },
            None => {
                false
            },
        }
    }

    /// Removes the pad `raw_id`; the result says whether it was held.
    pub fn remove_id(&mut self, raw_id: usize) -> (r: bool)
        requires
            old(self).wf(),
        ensures
            r == holds_id(old(self)@, raw_id),
            r ==> exists|i: int|
                0 <= i < old(self)@.len() && old(self)@[i].id == raw_id && final(self)@ == old(
                    self,
                )@.remove(i),
            !r ==> final(self)@ == old(self)@,
            !holds_id(final(self)@, raw_id),
            final(self).wf(),
    {
        let mut i: usize = 0;
        while i < self.controllers.len()
            invariant
                i <= self.controllers@.len(),
                self@ == old(self)@,
                set_valid(self@),
                forall|j: int| 0 <= j < i ==> self.controllers@[j].id != raw_id,
            decreases self.controllers@.len() - i,
        {
            if self.controllers[i].id == raw_id {
                let ghost before = self.controllers@;
                self.controllers.remove(i);
                proof {
                    let after = self.controllers@;
                    assert(after =~= before.remove(i as int));
                    assert forall|k: int| 0 <= k < after.len() implies after[k].id != raw_id by {
                        if k < i {
                            assert(after[k] == before[k]);
                        } else {
                            assert(after[k] == before[k + 1]);
                            assert(before[k + 1].id != before[i as int].id);
                        }
                    }
                    assert forall|a: int, b: int|
                        0 <= a < after.len() && 0 <= b < after.len() && a != b implies #[trigger] after[a].id
                        != #[trigger] after[b].id by {
                        let a2 = if a < i { a } else { a + 1 };
                        let b2 = if b < i { b } else { b + 1 };
                        assert(after[a] == before[a2] && after[b] == before[b2]);
                    }
                    assert forall|a: int, b: int|
                        0 <= a < after.len() && 0 <= b < after.len() && a != b implies #[trigger] after[a].handle
                        != #[trigger] after[b].handle by {
                        let a2 = if a < i { a } else { a + 1 };
                        let b2 = if b < i { b } else { b + 1 };
                        assert(after[a] == before[a2] && after[b] == before[b2]);
                    }
                    assert forall|k: int| 0 <= k < after.len() implies controller_valid(
                        #[trigger] after[k],
                    ) by {
                        if k < i {
                            assert(after[k] == before[k]);
                        } else {
                            assert(after[k] == before[k + 1]);
                        }
                    }
                }
                return true;
            }
            i = i + 1;
        }
        false
    }

    /// Applies a fresh attach answer for the controller at `index` after a
    /// reconnect: usable slots replace the old ones, anything else keeps
    /// them. The result says whether they were replaced.
    pub fn reattach(&mut self, index: usize, reply: Option<AttachResponse>) -> (r: bool)
        requires
            old(self).wf(),
            index < old(self)@.len(),
        ensures
            r == (reply is Some && slots_usable(reply.unwrap())),
            r ==> final(self)@ == old(self)@.update(
                index as int,
                Controller {
                    device_slot: reply.unwrap().device_slot,
                    pad_slot: reply.unwrap().pad_slot,
                    ..old(self)@[index as int]
                },
            ),
            !r ==> final(self)@ == old(self)@,
            final(self).wf(),
    {
        match reply {
            Some(response) => {
                if response.device_slot < 0 || response.pad_slot < 0 {
                    return false;
                }
                let ghost before = self.controllers@;
                let old_controller = self.controllers[index];
                let updated = Controller {
                    device_slot: response.device_slot,
                    pad_slot: response.pad_slot,
                    ..old_controller
                };
                self.controllers.set(index, updated);
                proof {
                    let after = self.controllers@;
                    assert forall|a: int, b: int|
                        0 <= a < after.len() && 0 <= b < after.len() && a != b implies #[trigger] after[a].id
                        != #[trigger] after[b].id by {
                        assert(after[a].id == before[a].id && after[b].id == before[b].id);
                    }
                    assert forall|a: int, b: int|
                        0 <= a < after.len() && 0 <= b < after.len() && a != b implies #[trigger] after[a].handle
                        != #[trigger] after[b].handle by {
                        assert(after[a].handle == before[a].handle && after[b].handle == before[b].handle);
                    }
                    assert(controller_valid(before[index as int]));
                    assert forall|k: int| 0 <= k < after.len() implies controller_valid(
                        #[trigger] after[k],
                    ) by {
                        if k != index {
                            assert(after[k] == before[k]);
                        }
                    }
                }
                true
            },
            None => false,
        }
    }

    /// The data frame of one tick: each controller with its state payload,
    /// in order. A tick without controllers sends nothing.
    pub fn data_command(&self, payloads: Vec<Vec<u8>>) -> (r: Option<WriteCommand>)
        requires
            payloads@.len() == self@.len(),
        ensures
            self@.len() == 0 ==> r is None,
            self@.len() > 0 ==> r is Some && r.unwrap().frame() == data_frame(
                Seq::new(self@.len(), |i: int| (self@[i], payloads@[i]@)),
            ),
    {
        if self.controllers.len() == 0 {
            return None;
        }
        let mut items: Vec<(&Controller, Vec<u8>)> = Vec::new();
        let mut payloads = payloads;
        let ghost all = payloads@;
        let mut i: usize = 0;
        while i < self.controllers.len()
            invariant
                i <= self.controllers@.len(),
                self.controllers@.len() == all.len(),
                payloads@ == all,
                items@.len() == i,
                forall|k: int|
                    0 <= k < i ==> (*#[trigger] items@[k].0 == self.controllers@[k] && items@[k].1@
                        == all[k]@),
            decreases self.controllers@.len() - i,
        {
            let payload = payloads[i].clone();
            items.push((&self.controllers[i], payload));
            i = i + 1;
        }
        let command = WriteCommand::new(&items, 1);
        proof {
            let wanted = Seq::new(self@.len(), |k: int| (self@[k], all[k]@));
            assert(data_items(items@) =~= wanted);
        }
        Some(command)
    }
}

} // verus!
