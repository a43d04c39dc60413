use cofflos::fatal::Processor;

#[test]
fn fatal_handler_halts_for_good() {
    let mut p = Processor::new();
    assert!(!p.halted);
    assert!(p.step());
    assert!(p.step());
    assert_eq!(p.retired, 2);

    p.fatal_halt();
    assert!(p.halted);
    assert_eq!(p.retired, 2);

    for _ in 0..100 {
        assert!(!p.step());
    }
    assert!(p.halted);
    assert_eq!(p.retired, 2);
}

#[test]
fn fatal_halt_is_idempotent() {
    let mut p = Processor::new();
    p.fatal_halt();
    p.fatal_halt();
    assert!(p.halted);
    assert_eq!(p.retired, 0);
}
