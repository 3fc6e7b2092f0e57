use kernel_bringup::bringup::{init, BringUp, OutOfTurn, Step};

const ALL: [Step; 4] = [
    Step::DescriptorTables,
    Step::InterruptTable,
    Step::InterruptController,
    Step::EnableInterrupts,
];

#[test]
fn the_plan_is_the_four_steps_in_order() {
    assert_eq!(init(), ALL.to_vec());
}

#[test]
fn the_plan_brings_the_machine_up() {
    let mut state = BringUp::new();
    for step in init() {
        assert_eq!(state.next_step(), Some(step));
        assert!(!state.interrupts_enabled());
        assert_eq!(state.complete(step), Ok(()));
    }
    assert_eq!(state, BringUp::InterruptsEnabled);
    assert!(state.interrupts_enabled());
    assert_eq!(state.next_step(), None);
}

#[test]
fn bring_up_starts_with_the_descriptor_tables() {
    let state = BringUp::new();
    assert_eq!(state, BringUp::Reset);
    assert_eq!(state.next_step(), Some(Step::DescriptorTables));
    assert!(!state.interrupts_enabled());
}

#[test]
fn interrupts_cannot_be_enabled_early() {
    let mut state = BringUp::new();
    let early = [None, Some(Step::DescriptorTables), Some(Step::InterruptTable)];
    for done in early {
        if let Some(step) = done {
            assert_eq!(state.complete(step), Ok(()));
        }
        let before = state;
        assert_eq!(
            state.complete(Step::EnableInterrupts),
            Err(OutOfTurn { attempted: Step::EnableInterrupts, due: before.next_step() })
        );
        assert_eq!(state, before);
        assert!(!state.interrupts_enabled());
    }
    assert_eq!(state.complete(Step::InterruptController), Ok(()));
    assert_eq!(state.complete(Step::EnableInterrupts), Ok(()));
    assert!(state.interrupts_enabled());
}

#[test]
fn a_step_out_of_turn_is_refused() {
    let mut state = BringUp::new();
    assert_eq!(
        state.complete(Step::InterruptController),
        Err(OutOfTurn {
            attempted: Step::InterruptController,
            due: Some(Step::DescriptorTables)
        })
    );
    assert_eq!(state, BringUp::Reset);
    assert_eq!(state.complete(Step::DescriptorTables), Ok(()));
    assert_eq!(
        state.complete(Step::DescriptorTables),
        Err(OutOfTurn { attempted: Step::DescriptorTables, due: Some(Step::InterruptTable) })
    );
    assert_eq!(state, BringUp::TablesInstalled);
}

#[test]
fn a_second_bring_up_is_refused() {
    let mut state = BringUp::new();
    for step in init() {
        assert_eq!(state.complete(step), Ok(()));
    }
    for step in init() {
        assert_eq!(state.complete(step), Err(OutOfTurn { attempted: step, due: None }));
        assert_eq!(state, BringUp::InterruptsEnabled);
    }
}

#[test]
fn any_order_of_attempts_keeps_the_fixed_order() {
    // Every series of six attempts over the four steps.
    for code in 0..4096u32 {
        let mut state = BringUp::new();
        let mut done: Vec<Step> = Vec::new();
        let mut rest = code;
        for _ in 0..6 {
            let step = ALL[(rest % 4) as usize];
            rest /= 4;
            if state.complete(step).is_ok() {
                done.push(step);
            }
            assert_eq!(done[..], ALL[..done.len()]);
            assert_eq!(state.interrupts_enabled(), done.len() == 4);
        }
    }
}
