use vstd::prelude::*;
use super::Command;

verus! {

/// A queue of pre-arranged commands, handed out one per read: drives the
/// application loop without a keyboard.
pub struct ProgrammedEvent {
    remain_commands: Vec<Command>,
}

impl ProgrammedEvent {
    /// The commands not yet handed out, next one last.
    pub closed spec fn remaining(&self) -> Seq<Command> {
        self.remain_commands@
    }

    /// Queue up `cmds`: they will be handed out in the given order.
    pub fn new(cmds: Vec<Command>) -> (pe: ProgrammedEvent)
        ensures
            pe.remaining() == cmds@.reverse(),
    {
        let ghost orig = cmds@;
        let mut input = cmds;
        let mut rev: Vec<Command> = Vec::new();
        while input.len() > 0
            invariant
                input@ == orig.take(input@.len() as int),
                rev@.len() + input@.len() == orig.len(),
                forall|j: int| 0 <= j < rev@.len() ==> rev@[j] == orig[orig.len() - 1 - j],
            decreases input.len(),
        {
            let ghost before = input@;
            let c = input.pop().unwrap();
            rev.push(c);
            proof {
                assert(input@ =~= orig.take(input@.len() as int));
            }
        }
        proof {
            assert(rev@ =~= orig.reverse());
        }
        ProgrammedEvent { remain_commands: rev }
    }

    /// Read a Command. Hands out the queued commands in order; once the
    /// queue is exhausted, every further read yields `Nop`.
    pub fn read(&mut self) -> (r: Command)
        ensures
            old(self).remaining().len() > 0 ==> r == old(self).remaining().last()
                && final(self).remaining() == old(self).remaining().drop_last(),
            old(self).remaining().len() == 0 ==> r == Command::Nop && final(self).remaining()
                == old(self).remaining(),
    {
        match self.remain_commands.pop() {
            Some(cmd) => cmd,
            None => Command::Nop,
        }
    }
}

} // verus!
