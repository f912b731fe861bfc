use vstd::prelude::*;
use vstd::rwlock::RwLock;
use crate::sequence::{MonotonicCounter, ScriptedSequence, SequenceError};

verus! {

/// A source of turn numbers that any number of dispensers may draw from at
/// once; the source alone decides which number each caller gets.
pub trait TurnNumberSequence {
    /// Whether `r` is an outcome that this source can give for one request.
    spec fn can_issue(&self, r: Result<usize, SequenceError>) -> bool;

    fn get_next_turn_number(&self) -> (r: Result<usize, SequenceError>)
        ensures
            self.can_issue(r),
    ;
}

/// A shared counter starting at 0: each call takes the lock, advances the
/// counter once and returns the position it held.
pub struct ConsecutiveTurnNumberSequence {
    turn_number: RwLock<MonotonicCounter, spec_fn(MonotonicCounter) -> bool>,
}

impl ConsecutiveTurnNumberSequence {
    #[verifier::type_invariant]
    spec fn accepts_any(&self) -> bool {
        forall|v: MonotonicCounter| self.turn_number.inv(v)
    }

    pub fn new() -> (r: Self) {
        ConsecutiveTurnNumberSequence {
            turn_number: RwLock::new(MonotonicCounter::new(), Ghost(|c: MonotonicCounter| true)),
        }
    }
}

impl TurnNumberSequence for ConsecutiveTurnNumberSequence {
    /// A counter issues positions below `usize::MAX`, or reports that it has
    /// run out of them.
    open spec fn can_issue(&self, r: Result<usize, SequenceError>) -> bool {
        r matches Ok(v) ==> v < usize::MAX
    }

    fn get_next_turn_number(&self) -> (r: Result<usize, SequenceError>) {
        proof {
            use_type_invariant(self);
        }
        let (mut counter, handle) = self.turn_number.acquire_write();
        let r = counter.advance();
        handle.release_write(counter);
        r
    }
}

/// Whether `rest` is what is left of `script` after some of its values have
/// been handed out from the front.
pub open spec fn is_rest_of(rest: Seq<usize>, script: Seq<usize>) -> bool {
    exists|k: int| 0 <= k <= script.len() && rest == script.subrange(k, script.len() as int)
}

/// A shared scripted list: each call takes the lock and removes the head.
pub struct ScriptedTurnNumberSequence {
    values: RwLock<ScriptedSequence, spec_fn(ScriptedSequence) -> bool>,
    script: Ghost<Seq<usize>>,
}

impl ScriptedTurnNumberSequence {
    #[verifier::type_invariant]
    spec fn holds_rest_of_script(&self) -> bool {
        forall|v: ScriptedSequence| self.values.inv(v) == is_rest_of(v.remaining(), self.script@)
    }

    /// The whole list that this source was made with.
    pub closed spec fn script(&self) -> Seq<usize> {
        self.script@
    }

    pub fn new(values: Vec<usize>) -> (r: Self)
        ensures
            r.script() == values@,
    {
        let ghost script = values@;
        let sequence = ScriptedSequence::new(values);
        assert(script.subrange(0, script.len() as int) == script);
        ScriptedTurnNumberSequence {
            values: RwLock::new(sequence, Ghost(|s: ScriptedSequence| is_rest_of(s.remaining(), script))),
            script: Ghost(script),
        }
    }
}

impl TurnNumberSequence for ScriptedTurnNumberSequence {
    /// A scripted source hands out only values of its list, or reports that
    /// the list is used up.
    open spec fn can_issue(&self, r: Result<usize, SequenceError>) -> bool {
        r matches Ok(v) ==> self.script().contains(v)
    }

    fn get_next_turn_number(&self) -> (r: Result<usize, SequenceError>) {
        proof {
            use_type_invariant(self);
        }
        let (mut script, handle) = self.values.acquire_write();
        let ghost before = script.remaining();
        let r = script.advance();
        proof {
            let whole = self.script@;
            let k = choose|k: int| 0 <= k <= whole.len() && before == whole.subrange(k, whole.len() as int);
            if before.len() > 0 {
                assert(script.remaining() == whole.subrange(k + 1, whole.len() as int));
                assert(before[0] == whole[k]);
            }
        }
        handle.release_write(script);
        r
    }
}

/// An issued turn number; never changed once made.
#[derive(Debug, Clone, Copy, PartialEq, Eq, Structural)]
pub struct TurnTicket {
    turn_number: usize,
}

impl TurnTicket {
    pub closed spec fn turn(&self) -> usize {
        self.turn_number
    }

    pub fn new(turn_number: usize) -> (r: Self)
        ensures
            r.turn() == turn_number,
    {
        TurnTicket { turn_number }
    }

    pub fn get_turn_number(&self) -> (r: usize)
        ensures
            r == self.turn(),
    {
        self.turn_number
    }
}

/// The ticket for what a sequence returned: the same number on success, the
/// same error otherwise.
pub fn ticket_for(advanced: Result<usize, SequenceError>) -> (r: Result<TurnTicket, SequenceError>)
    ensures
        match advanced {
            Ok(n) => r matches Ok(t) && t.turn() == n,
            Err(e) => r == Err::<TurnTicket, SequenceError>(e),
        },
{
    match advanced {
        Ok(n) => Ok(TurnTicket::new(n)),
        Err(e) => Err(e),
    }
}

/// A ticket machine bound to a shared sequence it does not own. It keeps no
/// state of its own: every ticket comes straight from the sequence.
pub struct TicketDispenser<'a, NumberSequence: TurnNumberSequence> {
    turn_number_sequence: &'a NumberSequence,
}

impl<'a, NumberSequence: TurnNumberSequence> TicketDispenser<'a, NumberSequence> {
    pub closed spec fn sequence(&self) -> &'a NumberSequence {
        self.turn_number_sequence
    }

    pub fn new(turn_number_sequence: &'a NumberSequence) -> (r: Self)
        ensures
            r.sequence() == turn_number_sequence,
    {
        TicketDispenser { turn_number_sequence }
    }

    /// Draws one number from the shared sequence and wraps it in a ticket;
    /// an error of the sequence is passed on unchanged.
    pub fn get_turn_ticket(&mut self) -> (r: Result<TurnTicket, SequenceError>)
        ensures
            final(self).sequence() == old(self).sequence(),
            match r {
                Ok(t) => old(self).sequence().can_issue(Ok(t.turn())),
                Err(e) => old(self).sequence().can_issue(Err(e)),
            },
    {
        let advanced = self.turn_number_sequence.get_next_turn_number();
        ticket_for(advanced)
    }
}

} // verus!
