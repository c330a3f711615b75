//! Commands: work that an application's update asks the runtime to do.
use vstd::prelude::*;
use crate::animation::Animation;

verus! {

/// One piece of work of a command.
pub enum Task<Message> {
    /// Run `animation`, sending `tick_message` at every tick and
    /// `done_message` when it ends.
    Animate { animation: Animation, tick_message: Message, done_message: Message },
}

/// The work an update asks for, in order.
pub struct Command<Message> {
    pub tasks: Vec<Task<Message>>,
}

impl<Message> Command<Message> {
    /// A command that asks for nothing.
    pub fn none() -> (c: Command<Message>)
        ensures
            c.tasks@ == Seq::<Task<Message>>::empty(),
    {
        Command { tasks: Vec::new() }
    }

    /// A command that runs one animation.
    pub fn animation(animation: Animation, tick_message: Message, done_message: Message) -> (c: Command<Message>)
        ensures
            c.tasks@ == seq![Task::Animate { animation, tick_message, done_message }],
    {
        let mut tasks: Vec<Task<Message>> = Vec::new();
        tasks.push(Task::Animate { animation, tick_message, done_message });
        Command { tasks }
    }

    /// This command followed by the tasks of `other`, which is left empty.
    pub fn append(self, other: &mut Command<Message>) -> (c: Command<Message>)
        ensures
            c.tasks@ == self.tasks@ + old(other).tasks@,
            final(other).tasks@ == Seq::<Task<Message>>::empty(),
    {
        let mut this = self;
        this.tasks.append(&mut other.tasks);
        this
    }
}

} // verus!
