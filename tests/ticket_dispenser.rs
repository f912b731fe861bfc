use turn_tickets::dispenser::{
    ticket_for, ConsecutiveTurnNumberSequence, ScriptedTurnNumberSequence, TicketDispenser,
    TurnNumberSequence, TurnTicket,
};
use turn_tickets::sequence::{MonotonicCounter, ScriptedSequence, SequenceError};

#[test]
fn test_consecutive_turn() {
    let sequence = ConsecutiveTurnNumberSequence::new();

    assert_eq!(sequence.get_next_turn_number().unwrap(), 0);
    assert_eq!(sequence.get_next_turn_number().unwrap(), 1);
}

#[test]
fn issues_a_sequence_of_tickets() {
    let number_sequence = ScriptedTurnNumberSequence::new(vec![2, 5, 9, 1, 11]);
    let mut dispenser = TicketDispenser::new(&number_sequence);

    assert_eq!(dispenser.get_turn_ticket().unwrap().get_turn_number(), 2);
    assert_eq!(dispenser.get_turn_ticket().unwrap().get_turn_number(), 5);
    assert_eq!(dispenser.get_turn_ticket().unwrap().get_turn_number(), 9);
    assert_eq!(dispenser.get_turn_ticket().unwrap().get_turn_number(), 1);
}

#[test]
fn the_same_ticket_should_not_be_issued_to_two_different_customers() {
    let number_sequence = ScriptedTurnNumberSequence::new(vec![2, 5, 9, 1, 11]);
    let mut first_dispenser = TicketDispenser::new(&number_sequence);
    let mut second_dispenser = TicketDispenser::new(&number_sequence);

    assert_eq!(first_dispenser.get_turn_ticket().unwrap().get_turn_number(), 2);
    assert_eq!(second_dispenser.get_turn_ticket().unwrap().get_turn_number(), 5);
    assert_eq!(first_dispenser.get_turn_ticket().unwrap().get_turn_number(), 9);
    assert_eq!(second_dispenser.get_turn_ticket().unwrap().get_turn_number(), 1);
    assert_eq!(second_dispenser.get_turn_ticket().unwrap().get_turn_number(), 11);
}

#[test]
fn two_dispensers_share_one_counter() {
    let counter = ConsecutiveTurnNumberSequence::new();
    let mut a = TicketDispenser::new(&counter);
    let mut b = TicketDispenser::new(&counter);
    assert_eq!(a.get_turn_ticket().unwrap().get_turn_number(), 0);
    assert_eq!(b.get_turn_ticket().unwrap().get_turn_number(), 1);
    assert_eq!(a.get_turn_ticket().unwrap().get_turn_number(), 2);
}

#[test]
fn scripted_source_is_exhausted_after_its_list() {
    let number_sequence = ScriptedTurnNumberSequence::new(vec![7]);
    let mut dispenser = TicketDispenser::new(&number_sequence);
    assert_eq!(dispenser.get_turn_ticket().unwrap().get_turn_number(), 7);
    assert_eq!(dispenser.get_turn_ticket(), Err(SequenceError::Exhausted));
    assert_eq!(number_sequence.get_next_turn_number(), Err(SequenceError::Exhausted));
}

#[test]
fn empty_script_fails_at_once() {
    let mut script = ScriptedSequence::new(vec![]);
    assert_eq!(script.advance(), Err(SequenceError::Exhausted));
}

#[test]
fn scripted_sequence_keeps_list_order() {
    let mut script = ScriptedSequence::new(vec![2, 5, 9, 1, 11]);
    let mut got = Vec::new();
    while let Ok(v) = script.advance() {
        got.push(v);
    }
    assert_eq!(got, vec![2, 5, 9, 1, 11]);
    assert_eq!(script.advance(), Err(SequenceError::Exhausted));
}

#[test]
fn fresh_counter_starts_at_zero() {
    let mut counter = MonotonicCounter::new();
    assert_eq!(counter.advance(), Ok(0));
    let shared = ConsecutiveTurnNumberSequence::new();
    assert_eq!(shared.get_next_turn_number(), Ok(0));
}

#[test]
fn counter_issues_contiguous_distinct_values() {
    let mut counter = MonotonicCounter::new();
    let mut got = Vec::new();
    for _ in 0..1000 {
        got.push(counter.advance().unwrap());
    }
    let expected: Vec<usize> = (0..1000).collect();
    assert_eq!(got, expected);
}

#[test]
fn ticket_keeps_its_number() {
    assert_eq!(TurnTicket::new(42).get_turn_number(), 42);
    assert_eq!(ticket_for(Ok(3)), Ok(TurnTicket::new(3)));
    assert_eq!(ticket_for(Err(SequenceError::Exhausted)), Err(SequenceError::Exhausted));
}

#[test]
fn many_dispensers_interleaved_get_unique_contiguous_tickets() {
    let counter = ConsecutiveTurnNumberSequence::new();
    let callers = 50;
    let per_caller = 1000;
    let mut dispensers: Vec<_> = (0..callers).map(|_| TicketDispenser::new(&counter)).collect();
    let mut all = Vec::new();
    for _ in 0..per_caller {
        for d in dispensers.iter_mut() {
            all.push(d.get_turn_ticket().unwrap().get_turn_number());
        }
    }
    all.sort();
    let expected: Vec<usize> = (0..callers * per_caller).collect();
    assert_eq!(all, expected);
}

#[test]
fn scripted_source_hands_out_only_its_list() {
    let number_sequence = ScriptedTurnNumberSequence::new(vec![4, 4, 8]);
    let mut a = TicketDispenser::new(&number_sequence);
    let mut b = TicketDispenser::new(&number_sequence);
    assert_eq!(a.get_turn_ticket().unwrap().get_turn_number(), 4);
    assert_eq!(b.get_turn_ticket().unwrap().get_turn_number(), 4);
    assert_eq!(b.get_turn_ticket().unwrap().get_turn_number(), 8);
    assert_eq!(a.get_turn_ticket(), Err(SequenceError::Exhausted));
}

#[test]
fn two_counters_are_independent() {
    let first = ConsecutiveTurnNumberSequence::new();
    let second = ConsecutiveTurnNumberSequence::new();
    assert_eq!(first.get_next_turn_number(), Ok(0));
    assert_eq!(first.get_next_turn_number(), Ok(1));
    assert_eq!(second.get_next_turn_number(), Ok(0));
    assert_eq!(first.get_next_turn_number(), Ok(2));
}
