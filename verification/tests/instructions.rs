use lc4::{Processor, ProcessorState};

fn run(processor: &mut Processor, symbols: &str) {
    for symbol in symbols.chars() {
        assert!(processor.accepts(symbol));
        processor.execute_symbol(symbol);
    }
}

#[test]
fn new_processor_is_clear_and_okay() {
    for count in 0..9 {
        let p = Processor::new(count);
        let zeros: Vec<&str> = (0..count).map(|_| "0").collect();
        assert_eq!(p.register_values_to_string(), format!("[{}]", zeros.join(",")));
        assert_eq!(p.get_state(), ProcessorState::Okay);
    }
}

#[test]
fn new_processor_has_the_flag_set() {
    let mut p = Processor::new(1);
    run(&mut p, "=");
    assert_eq!(p.register_values_to_string(), "[1]");
}

#[test]
fn empty_bank_is_written_as_empty_brackets() {
    let p = Processor::new(0);
    assert_eq!(p.register_values_to_string(), "[]");
}

#[test]
fn single_register_has_no_comma() {
    let mut p = Processor::new(1);
    assert_eq!(p.register_values_to_string(), "[0]");
    run(&mut p, "1");
    assert_eq!(p.register_values_to_string(), "[1]");
}

#[test]
fn invert_twice_restores_the_register() {
    let mut p = Processor::new(3);
    run(&mut p, "[1,0,1]");
    run(&mut p, "[,+");
    assert_eq!(p.register_values_to_string(), "[1,1,1]");
    run(&mut p, "+");
    assert_eq!(p.register_values_to_string(), "[1,0,1]");
    run(&mut p, "[++");
    assert_eq!(p.register_values_to_string(), "[1,0,1]");
}

#[test]
fn store_writes_the_flag_and_sets_it_again() {
    let mut p = Processor::new(3);
    // The comparison fails, so the first store writes 0 and the second 1.
    run(&mut p, "[&,1,1]");
    assert_eq!(p.register_values_to_string(), "[0,1,1]");
    run(&mut p, "[-,=,-]");
    assert_eq!(p.register_values_to_string(), "[0,0,1]");
    run(&mut p, "[-,-,-] > [=,-,-]");
    assert_eq!(p.register_values_to_string(), "[1,0,1]");
}

#[test]
fn store_touches_one_register_only() {
    let mut p = Processor::new(4);
    run(&mut p, "[1,0,1,0] > [-,=,-,-]");
    assert_eq!(p.register_values_to_string(), "[1,1,1,0]");
    assert_eq!(p.get_state(), ProcessorState::Okay);
}

#[test]
fn compare_never_sets_a_clear_flag() {
    let mut p = Processor::new(2);
    // The first comparison clears the flag; the one on a set register
    // leaves it clear.
    run(&mut p, "[0,1] > [&,&] > [=,-]");
    assert_eq!(p.register_values_to_string(), "[0,1]");
    run(&mut p, "[1,1] > [&,&] > [0,=]");
    assert_eq!(p.register_values_to_string(), "[0,1]");
}

#[test]
fn clear_flag_survives_every_symbol_but_store() {
    let mut p = Processor::new(2);
    run(&mut p, "[0,1] > [&,-] > [1,+] ! ? - [,&] > [=,-]");
    assert_eq!(p.register_values_to_string(), "[0,0]");
}

#[test]
fn halt_check_is_idempotent() {
    let mut p = Processor::new(2);
    run(&mut p, "[1,0] > !");
    assert_eq!(p.get_state(), ProcessorState::Halt);
    run(&mut p, "!!");
    assert_eq!(p.get_state(), ProcessorState::Halt);
    run(&mut p, ",!");
    assert_eq!(p.get_state(), ProcessorState::Okay);
    run(&mut p, "!");
    assert_eq!(p.get_state(), ProcessorState::Okay);
    assert_eq!(p.register_values_to_string(), "[1,0]");
}

#[test]
fn halt_is_not_terminal() {
    let mut p = Processor::new(2);
    run(&mut p, "[1,0] > !");
    assert_eq!(p.get_state(), ProcessorState::Halt);
    run(&mut p, ",1");
    assert_eq!(p.register_values_to_string(), "[1,1]");
    assert_eq!(p.get_state(), ProcessorState::Halt);
    run(&mut p, "[0!");
    assert_eq!(p.get_state(), ProcessorState::Okay);
}

#[test]
fn unknown_symbol_is_reported_with_its_name() {
    let mut p = Processor::new(4);
    run(&mut p, "[1,0");
    p.execute_symbol('?');
    assert_eq!(p.get_state(), ProcessorState::Error("invalid symbol \"?\"".to_string()));
    assert_eq!(p.register_values_to_string(), "[1,0,0,0]");
}

#[test]
fn every_unknown_symbol_names_itself() {
    for symbol in ['a', 'Z', '2', '9', '\n', '\t', '"', '<', '*', 'é', '→'] {
        let mut p = Processor::new(1);
        assert!(p.accepts(symbol));
        p.execute_symbol(symbol);
        assert_eq!(p.get_state(), ProcessorState::Error(format!("invalid symbol \"{}\"", symbol)));
        assert_eq!(p.register_values_to_string(), "[0]");
    }
}

#[test]
fn error_does_not_block_later_symbols() {
    let mut p = Processor::new(2);
    run(&mut p, "[?1,1]");
    assert_eq!(p.register_values_to_string(), "[1,1]");
    assert_eq!(p.get_state(), ProcessorState::Error("invalid symbol \"?\"".to_string()));
}

#[test]
fn later_error_replaces_earlier_one() {
    let mut p = Processor::new(1);
    run(&mut p, "?x");
    assert_eq!(p.get_state(), ProcessorState::Error("invalid symbol \"x\"".to_string()));
}

#[test]
fn halt_check_clears_an_error() {
    let mut p = Processor::new(1);
    run(&mut p, "?!");
    assert_eq!(p.get_state(), ProcessorState::Okay);
    run(&mut p, "?1!");
    assert_eq!(p.get_state(), ProcessorState::Halt);
}

#[test]
fn no_op_symbols_change_nothing() {
    let mut p = Processor::new(2);
    run(&mut p, "[1,0");
    run(&mut p, "- - -  ");
    assert_eq!(p.register_values_to_string(), "[1,0]");
    // The pointer still stands on the second register and the flag is set.
    run(&mut p, "=");
    assert_eq!(p.register_values_to_string(), "[1,1]");
    assert_eq!(p.get_state(), ProcessorState::Okay);
}

#[test]
fn all_three_reset_symbols_reset_the_pointer() {
    for reset in ['>', '[', ']'] {
        let mut p = Processor::new(3);
        run(&mut p, ",,");
        p.execute_symbol(reset);
        run(&mut p, "1");
        assert_eq!(p.register_values_to_string(), "[1,0,0]");
    }
}

#[test]
fn pointer_may_leave_the_bank_until_a_register_is_addressed() {
    let mut p = Processor::new(2);
    run(&mut p, "[1,1,,,");
    for symbol in ['0', '1', '+', '&', '=', '!'] {
        assert!(!p.accepts(symbol));
    }
    for symbol in ['-', ' ', '>', '[', ']', ',', '?'] {
        assert!(p.accepts(symbol));
    }
    run(&mut p, "]0");
    assert_eq!(p.register_values_to_string(), "[0,1]");
}

#[test]
fn empty_bank_accepts_no_register_access() {
    let p = Processor::new(0);
    for symbol in ['0', '1', '+', '&', '=', '!'] {
        assert!(!p.accepts(symbol));
    }
    assert!(p.accepts(','));
    assert!(p.accepts('['));
    assert!(p.accepts('x'));
}

#[test]
fn states_compare_by_kind_and_message() {
    assert_eq!(ProcessorState::Okay, ProcessorState::Okay);
    assert_eq!(ProcessorState::Halt, ProcessorState::Halt);
    assert_ne!(ProcessorState::Okay, ProcessorState::Halt);
    assert_ne!(ProcessorState::Error("a".to_string()), ProcessorState::Okay);
    assert_ne!(ProcessorState::Halt, ProcessorState::Error("a".to_string()));
    assert_eq!(ProcessorState::Error("a".to_string()), ProcessorState::Error("a".to_string()));
    assert_ne!(ProcessorState::Error("a".to_string()), ProcessorState::Error("b".to_string()));
    let copy = ProcessorState::Error("a".to_string()).clone();
    assert_eq!(copy, ProcessorState::Error("a".to_string()));
}
