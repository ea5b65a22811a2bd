use resource_join::{combine, combine_pair_match, combine_pair_unwrap, Slot, SlotError, Verdict};

fn all_states() -> [Slot; 3] {
    [
        Slot::Unresolved,
        Slot::Resolved(Ok(1)),
        Slot::Resolved(Err(SlotError)),
    ]
}

fn expected_pair_verdict(first: Slot, second: Slot) -> Verdict {
    let pending = |s: &Slot| matches!(s, Slot::Unresolved);
    let failed = |s: &Slot| matches!(s, Slot::Resolved(Err(_)));
    if pending(&first) || pending(&second) {
        Verdict::Loading
    } else if failed(&first) || failed(&second) {
        Verdict::Failed
    } else {
        let value = |s: &Slot| match s {
            Slot::Resolved(Ok(v)) => *v,
            _ => unreachable!(),
        };
        Verdict::Ready(vec![value(&first), value(&second)])
    }
}

#[test]
fn precedence_table_all_nine_combinations() {
    for first in all_states() {
        for second in all_states() {
            let expected = expected_pair_verdict(first, second);
            assert_eq!(combine_pair_match(&first, &second), expected);
            assert_eq!(combine_pair_unwrap(&first, &second), expected);
        }
    }
}

#[test]
fn strategies_agree_on_every_combination() {
    for first in all_states() {
        for second in all_states() {
            assert_eq!(
                combine_pair_match(&first, &second),
                combine_pair_unwrap(&first, &second)
            );
        }
    }
}

#[test]
fn pending_wins_over_error() {
    let verdict = combine_pair_unwrap(&Slot::Resolved(Err(SlotError)), &Slot::Unresolved);
    assert_eq!(verdict, Verdict::Loading);
    let verdict = combine_pair_unwrap(&Slot::Unresolved, &Slot::Resolved(Err(SlotError)));
    assert_eq!(verdict, Verdict::Loading);
}

#[test]
fn ready_carries_values_in_input_order() {
    let verdict = combine_pair_match(&Slot::Resolved(Ok(50)), &Slot::Resolved(Ok(1000)));
    assert_eq!(verdict, Verdict::Ready(vec![50, 1000]));
}

#[test]
fn combine_empty_collection_is_ready() {
    let slots: Vec<Slot> = Vec::new();
    assert_eq!(combine(&slots), Verdict::Ready(vec![]));
}

#[test]
fn combine_single_slot() {
    assert_eq!(combine(&vec![Slot::Unresolved]), Verdict::Loading);
    assert_eq!(
        combine(&vec![Slot::Resolved(Err(SlotError))]),
        Verdict::Failed
    );
    assert_eq!(combine(&vec![Slot::Resolved(Ok(9))]), Verdict::Ready(vec![9]));
}

#[test]
fn combine_three_slots() {
    let slots = vec![
        Slot::Resolved(Ok(1)),
        Slot::Resolved(Ok(2)),
        Slot::Resolved(Ok(3)),
    ];
    assert_eq!(combine(&slots), Verdict::Ready(vec![1, 2, 3]));

    let slots = vec![
        Slot::Resolved(Ok(1)),
        Slot::Unresolved,
        Slot::Resolved(Err(SlotError)),
    ];
    assert_eq!(combine(&slots), Verdict::Loading);
}

#[test]
fn multiple_simultaneous_errors_report_failed_once() {
    let slots = vec![
        Slot::Resolved(Err(SlotError)),
        Slot::Resolved(Err(SlotError)),
    ];
    assert_eq!(combine(&slots), Verdict::Failed);
}

#[test]
fn error_wins_over_values_in_general_combine() {
    let slots = vec![
        Slot::Resolved(Ok(1)),
        Slot::Resolved(Err(SlotError)),
        Slot::Resolved(Ok(3)),
    ];
    assert_eq!(combine(&slots), Verdict::Failed);
}
