//! The table of controller slots.
use vstd::prelude::*;
use crate::controller::error::ControllerError;
use crate::controller::{Controller, ControllerView, Outcome};
use crate::inputs::Inputs;
use crate::CONTROLLER_COUNT;

verus! {

/// The workers of all controller slots, by index. Requests for one slot leave
/// every other slot as it is.
pub struct ProgramStateUnwrapped {
    controllers: [Controller; CONTROLLER_COUNT],
}

impl View for ProgramStateUnwrapped {
    type V = Seq<ControllerView>;

    closed spec fn view(&self) -> Seq<ControllerView> {
        Seq::new(CONTROLLER_COUNT as nat, |i: int| self.controllers[i]@)
    }
}

/// The indices below `bound` that `flags` marks, in ascending order.
pub open spec fn marked(flags: Seq<bool>, bound: int) -> Seq<usize>
    decreases bound,
{
    if bound <= 0 {
        Seq::empty()
    } else if flags[bound - 1] {
        marked(flags, bound - 1).push((bound - 1) as usize)
    } else {
        marked(flags, bound - 1)
    }
}

/// `marked` lists exactly the marked indices below the bound, each once,
/// the smaller before the larger.
pub proof fn lemma_marked(flags: Seq<bool>, bound: int)
    requires
        0 <= bound <= flags.len(),
        bound <= usize::MAX,
    ensures
        forall|k: int|
            0 <= k < marked(flags, bound).len() ==> 0 <= (#[trigger] marked(flags, bound)[k])
                < bound && flags[marked(flags, bound)[k] as int],
        forall|i: int|
            0 <= i < bound && flags[i] ==> exists|k: int|
                0 <= k < marked(flags, bound).len() && #[trigger] marked(flags, bound)[k] == i,
        forall|j: int, k: int|
            0 <= j < k < marked(flags, bound).len() ==> #[trigger] marked(flags, bound)[j]
                < #[trigger] marked(flags, bound)[k],
    decreases bound,
{
    if bound > 0 {
        lemma_marked(flags, bound - 1);
        let earlier = marked(flags, bound - 1);
        let all = marked(flags, bound);
        assert forall|i: int| 0 <= i < bound && flags[i] implies exists|k: int|
            0 <= k < all.len() && #[trigger] all[k] == i by {
            if i == bound - 1 {
                assert(all[all.len() - 1] == i);
            } else {
                let k = choose|k: int| 0 <= k < earlier.len() && #[trigger] earlier[k] == i;
                assert(all[k] == i);
            }
        }
    }
}

/// Which workers of a table are active, by slot.
pub open spec fn activity(table: Seq<ControllerView>) -> Seq<bool> {
    table.map_values(|worker: ControllerView| worker.active)
}

/// Fills a table with new workers.
///
/// Trusted: `array_init::array_init` calls its closure once for each index,
/// from the lowest, and returns the array of what the calls gave. The
/// closure here gives a new worker whatever the index.
#[verifier::external_body]
fn new_controllers() -> (controllers: [Controller; CONTROLLER_COUNT])
    ensures
        forall|i: int| 0 <= i < CONTROLLER_COUNT ==> controllers[i]@ == ControllerView::fresh(),
{
    array_init::array_init(|_| Controller::new())
}

impl ProgramStateUnwrapped {
    /// A table has one worker for each slot.
    pub proof fn lemma_len(&self)
        ensures
            self@.len() == CONTROLLER_COUNT,
    {
    }

    /// A table of inactive workers that hold the neutral snapshot.
    pub fn new() -> (table: ProgramStateUnwrapped)
        ensures
            table@ == Seq::new(CONTROLLER_COUNT as nat, |i: int| ControllerView::fresh()),
    {
        ProgramStateUnwrapped { controllers: new_controllers() }
    }

    /// Starts the worker of slot `index`, as `Controller::start` does.
    pub fn start(&mut self, index: usize, spawn: Outcome) -> (result: Result<(), ControllerError>)
        requires
            index < CONTROLLER_COUNT,
        ensures
            final(self)@ == old(self)@.update(index as int, old(self)@[index as int].start(spawn).0),
            result == old(self)@[index as int].start(spawn).1,
    {
        self.controllers[index].start(spawn)
    }

    /// Stops the worker of slot `index`, as `Controller::stop` does.
    pub fn stop(&mut self, index: usize, exit: Outcome) -> (result: Result<(), ControllerError>)
        requires
            index < CONTROLLER_COUNT,
        ensures
            final(self)@ == old(self)@.update(index as int, old(self)@[index as int].stop(exit).0),
            result == old(self)@[index as int].stop(exit).1,
    {
        self.controllers[index].stop(exit)
    }

    /// Publishes a snapshot for slot `index`, as `Controller::write` does.
    pub fn write(&mut self, index: usize, snapshot: Inputs) -> (result: Result<
        (),
        ControllerError,
    >)
        requires
            index < CONTROLLER_COUNT,
        ensures
            final(self)@ == old(self)@.update(
                index as int,
                old(self)@[index as int].write(snapshot).0,
            ),
            result == old(self)@[index as int].write(snapshot).1,
    {
        self.controllers[index].write(snapshot)
    }

    /// Whether the worker of slot `index` is active.
    pub fn is_active(&self, index: usize) -> (active: bool)
        requires
            index < CONTROLLER_COUNT,
        ensures
            active == self@[index as int].active,
    {
        self.controllers[index].is_active()
    }

    /// The slots whose worker is active, in ascending order.
    pub fn active_slots(&self) -> (slots: Vec<usize>)
        ensures
            slots@ == marked(activity(self@), CONTROLLER_COUNT as int),
    {
        let mut slots: Vec<usize> = Vec::new();
        let mut index: usize = 0;
        while index < CONTROLLER_COUNT
            invariant
                index <= CONTROLLER_COUNT,
                slots@ == marked(activity(self@), index as int),
            decreases CONTROLLER_COUNT - index,
        {
            if self.controllers[index].is_active() {
                slots.push(index);
            }
            index = index + 1;
        }
        slots
    }

    /// A copy of the current snapshot of slot `index`.
    pub fn read(&self, index: usize) -> (snapshot: Inputs)
        requires
            index < CONTROLLER_COUNT,
        ensures
            snapshot == self@[index as int].inputs,
    {
        self.controllers[index].read()
    }
}

} // verus!
