use vstd::prelude::*;

verus! {

/// A queue family as the physical device reports it.
#[derive(Clone, Copy, Debug, PartialEq, Eq, Structural)]
pub struct QueueFamily {
    pub graphics: bool,
    pub queue_count: u32,
}

/// Whether `i` is the first family that runs graphics work.
pub open spec fn is_first_graphics(families: Seq<QueueFamily>, i: int) -> bool {
    &&& 0 <= i < families.len()
    &&& families[i].graphics
    &&& forall|j: int| 0 <= j < i ==> !(#[trigger] families[j]).graphics
}

/// The index and queue count of the first family that runs graphics work;
/// `None` where no family does.
pub fn get_queue_family_index(families: &[QueueFamily]) -> (r: Option<(u32, u32)>)
    requires
        families@.len() <= u32::MAX,
    ensures
        r is None <==> forall|j: int| 0 <= j < families@.len() ==> !(#[trigger] families@[j]).graphics,
        r is Some ==> is_first_graphics(families@, r->Some_0.0 as int)
            && r->Some_0.1 == families@[r->Some_0.0 as int].queue_count,
{
    let mut i: usize = 0;
    while i < families.len()
        invariant
            i <= families@.len(),
            families@.len() <= u32::MAX,
            forall|j: int| 0 <= j < i ==> !(#[trigger] families@[j]).graphics,
        decreases families@.len() - i,
    {
        if families[i].graphics {
            return Some((i as u32, families[i].queue_count));
        }
        i += 1;
    }
    None
}

/// The device's queues, handed out in turn.
pub struct Queues {
    queues: Vec<u64>,
    curr_queue_index: usize,
}

impl Queues {
    pub closed spec fn handles(&self) -> Seq<u64> {
        self.queues@
    }

    /// The position of the queue handed out next.
    pub closed spec fn current(&self) -> nat {
        self.curr_queue_index as nat
    }

    pub open spec fn wf(&self) -> bool {
        self.handles().len() > 0 && self.current() < self.handles().len()
    }

    /// The queues of a device, the first one to be handed out first.
    pub fn new(queues: Vec<u64>) -> (r: Queues)
        requires
            queues@.len() > 0,
        ensures
            r.wf(),
            r.handles() == queues@,
            r.current() == 0,
    {
        Queues { queues, curr_queue_index: 0 }
    }

    /// The current queue; the next call hands out the one after it, going
    /// round to the first after the last.
    pub fn get_queue(&mut self) -> (r: u64)
        requires
            old(self).wf(),
        ensures
            final(self).wf(),
            r == old(self).handles()[old(self).current() as int],
            final(self).handles() == old(self).handles(),
            final(self).current() == (old(self).current() + 1) % old(self).handles().len(),
    {
        let n = self.queues.len();
        assert(self.curr_queue_index < n);
        let queue = self.queues[self.curr_queue_index];
        self.curr_queue_index = (self.curr_queue_index + 1) % n;
        queue
    }
}

} // verus!
