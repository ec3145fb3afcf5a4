//! The bounded queue through which detected commands reach the caller.

use vstd::prelude::*;
use std::collections::VecDeque;
use crate::command::CommandType;

verus! {

/// Most commands that wait in the queue at one time.
pub const COMMAND_QUEUE_CAPACITY: usize = 10;

/// The queue after `command` has been put into `queue`: at the back, and with
/// the oldest entry gone where the queue was full.
pub open spec fn enqueue(queue: Seq<CommandType>, command: CommandType) -> Seq<CommandType> {
    if queue.len() >= COMMAND_QUEUE_CAPACITY {
        queue.drop_first().push(command)
    } else {
        queue.push(command)
    }
}

/// The queue after the first `count` of `commands` have been put into
/// `queue`, one after the other.
pub open spec fn enqueue_all(queue: Seq<CommandType>, commands: Seq<CommandType>, count: nat) -> Seq<
    CommandType,
>
    decreases count,
{
    if count == 0 || count > commands.len() {
        queue
    } else {
        enqueue(enqueue_all(queue, commands, (count - 1) as nat), commands[count - 1])
    }
}

/// The last `keep` entries of `commands`, or all of them where there are
/// fewer.
pub open spec fn newest(commands: Seq<CommandType>, keep: nat) -> Seq<CommandType> {
    if commands.len() > keep {
        commands.subrange(commands.len() - keep, commands.len() as int)
    } else {
        commands
    }
}

/// Putting a run of commands into an empty queue leaves the newest ten of
/// them, oldest first: each entry beyond the tenth pushes out the oldest one
/// still waiting.
pub proof fn lemma_queue_keeps_newest(commands: Seq<CommandType>, count: nat)
    requires
        count <= commands.len(),
    ensures
        enqueue_all(Seq::empty(), commands, count) == newest(
            commands.subrange(0, count as int),
            COMMAND_QUEUE_CAPACITY as nat,
        ),
        enqueue_all(Seq::empty(), commands, count).len() == if count
            <= COMMAND_QUEUE_CAPACITY {
            count
        } else {
            COMMAND_QUEUE_CAPACITY as nat
        },
    decreases count,
{
    let taken = commands.subrange(0, count as int);
    if count == 0 {
        assert(taken =~= Seq::<CommandType>::empty());
    } else {
        lemma_queue_keeps_newest(commands, (count - 1) as nat);
        let before = commands.subrange(0, count - 1);
        let held = enqueue_all(Seq::empty(), commands, (count - 1) as nat);
        assert(held == newest(before, COMMAND_QUEUE_CAPACITY as nat));
        assert(enqueue(held, commands[count - 1]) =~= newest(taken, COMMAND_QUEUE_CAPACITY as nat));
    }
}

/// A queue never grows beyond its capacity, whatever is put into it.
pub proof fn lemma_enqueue_bounded(queue: Seq<CommandType>, command: CommandType)
    requires
        queue.len() <= COMMAND_QUEUE_CAPACITY,
    ensures
        0 < enqueue(queue, command).len() <= COMMAND_QUEUE_CAPACITY,
        enqueue(queue, command).last() == command,
{
}

/// The commands that wait for the caller, oldest first, never more than
/// `COMMAND_QUEUE_CAPACITY` of them.
pub struct CommandQueue {
    items: VecDeque<CommandType>,
}

impl View for CommandQueue {
    type V = Seq<CommandType>;

    closed spec fn view(&self) -> Seq<CommandType> {
        self.items@
    }
}

impl CommandQueue {
    #[verifier::type_invariant]
    spec fn bounded(self) -> bool {
        self.items@.len() <= COMMAND_QUEUE_CAPACITY
    }

    /// An empty queue.
    pub fn new() -> (queue: Self)
        ensures
            queue@ == Seq::<CommandType>::empty(),
    {
        CommandQueue { items: VecDeque::new() }
    }

    /// Number of commands that wait.
    pub fn len(&self) -> (count: usize)
        ensures
            count == self@.len(),
            count <= COMMAND_QUEUE_CAPACITY,
    {
        proof {
            use_type_invariant(self);
        }
        self.items.len()
    }

    /// Puts `command` at the back. Where ten commands wait already, the
    /// oldest of them is dropped.
    pub fn push(&mut self, command: CommandType)
        ensures
            final(self)@ == enqueue(old(self)@, command),
            final(self)@.len() <= COMMAND_QUEUE_CAPACITY,
    {
        proof {
            use_type_invariant(&*self);
        }
        let mut items: VecDeque<CommandType> = VecDeque::new();
        std::mem::swap(&mut items, &mut self.items);
        items.push_back(command);
        if items.len() > COMMAND_QUEUE_CAPACITY {
            let _ = items.pop_front();
        }
        assert(items@ =~= enqueue(old(self)@, command));
        self.items = items;
    }

    /// Takes the oldest waiting command out, if there is one.
    pub fn pop(&mut self) -> (command: Option<CommandType>)
        ensures
            old(self)@.len() == 0 ==> command is None && final(self)@ == old(self)@,
            old(self)@.len() > 0 ==> command == Some(old(self)@.first()) && final(self)@ == old(
                self,
            )@.drop_first(),
    {
        proof {
            use_type_invariant(&*self);
        }
        let mut items: VecDeque<CommandType> = VecDeque::new();
        std::mem::swap(&mut items, &mut self.items);
        let command: Option<CommandType> = items.pop_front();
        assert(old(self)@.len() > 0 ==> items@ =~= old(self)@.drop_first());
        self.items = items;
        command
    }

    /// Drops every waiting command.
    pub fn clear(&mut self)
        ensures
            final(self)@ == Seq::<CommandType>::empty(),
    {
        self.items = VecDeque::new();
    }
}

} // verus!
