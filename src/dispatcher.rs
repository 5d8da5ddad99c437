use vstd::prelude::*;
use std::collections::VecDeque;

verus! {

/// A text argument as the trigger receives it: followed by its terminating NUL.
pub open spec fn terminated(t: Seq<u8>) -> Seq<u8> {
    t.push(0u8)
}

/// The trigger arguments, in order, that the dispatcher produces while it
/// drains a queue holding `q`.
pub open spec fn trigger_order(q: Seq<Seq<u8>>) -> Seq<Seq<u8>>
    decreases q.len(),
{
    if q.len() == 0 {
        Seq::empty()
    } else {
        seq![terminated(q[0])] + trigger_order(q.drop_first())
    }
}

/// The unbounded FIFO of argument values between the invocation bridge
/// (producers) and the dispatcher (single consumer).
pub struct CommandQueue {
    items: VecDeque<Vec<u8>>,
}

impl View for CommandQueue {
    type V = Seq<Seq<u8>>;

    closed spec fn view(&self) -> Seq<Seq<u8>> {
        self.items@.map_values(|v: Vec<u8>| v@)
    }
}

impl CommandQueue {
    pub fn new() -> (r: CommandQueue)
        ensures
            r@ == Seq::<Seq<u8>>::empty(),
    {
        let r = CommandQueue { items: VecDeque::new() };
        assert(r@ =~= Seq::<Seq<u8>>::empty());
        r
    }

    pub fn len(&self) -> (r: usize)
        ensures
            r == self@.len(),
    {
        self.items.len()
    }

    /// Appends an argument at the back.
    pub fn push(&mut self, arg: Vec<u8>)
        ensures
            final(self)@ == old(self)@.push(arg@),
    {
        let ghost a = arg@;
        self.items.push_back(arg);
        assert(self@ =~= old(self)@.push(a));
    }

    /// Takes the argument at the front, if any.
    pub fn pop(&mut self) -> (r: Option<Vec<u8>>)
        ensures
            match r {
                Some(a) => {
                    &&& old(self)@.len() > 0
                    &&& a@ == old(self)@[0]
                    &&& final(self)@ == old(self)@.drop_first()
                },
                None => {
                    &&& old(self)@.len() == 0
                    &&& final(self)@ == old(self)@
                },
            },
    {
        let r = self.items.pop_front();
        match r {
            Some(_) => {
                assert(self@ =~= old(self)@.drop_first());
            },
            None => {},
        }
        r
    }
}

/// What the dispatcher's worker does next.
#[derive(Debug)]
pub enum Dispatch {
    /// The one initialization call to the trigger subsystem.
    InitTrigger,
    /// One trigger call with this NUL-terminated argument.
    Trigger(Vec<u8>),
    /// Block until the queue holds an argument.
    Wait,
}

/// The single consumer of the command queue.
pub struct Dispatcher {
    pub started: bool,
}

impl Dispatcher {
    pub fn new() -> (r: Dispatcher)
        ensures
            !r.started,
    {
        Dispatcher { started: false }
    }

    /// Decides the worker's next call: the trigger's initialization first,
    /// then one trigger per queued argument, front first, without retry.
    pub fn next_dispatch(&mut self, queue: &mut CommandQueue) -> (r: Dispatch)
        ensures
            final(self).started,
            !old(self).started ==> r is InitTrigger && final(queue)@ == old(queue)@,
            old(self).started ==> match r {
                Dispatch::Trigger(t) => {
                    &&& old(queue)@.len() > 0
                    &&& t@ == terminated(old(queue)@[0])
                    &&& final(queue)@ == old(queue)@.drop_first()
                },
                Dispatch::Wait => old(queue)@.len() == 0 && final(queue)@ == old(queue)@,
                Dispatch::InitTrigger => false,
            },
    {
        if !self.started {
            self.started = true;
            return Dispatch::InitTrigger;
        }
        match queue.pop() {
            Some(arg) => {
                let mut t = arg;
                t.push(0u8);
                Dispatch::Trigger(t)
            },
            None => Dispatch::Wait,
        }
    }
}

} // verus!
