use interrupt_core::dispatch::{
    exception_name, has_error_code, register, Dispatch, InterruptCore, SystemState,
};
use interrupt_core::pic::PortWrite;

fn booted() -> InterruptCore {
    let mut core = InterruptCore::new();
    for v in 0..48usize {
        core.bind_handler(v, 0x1000 + v as u64 * 16, 0x08).unwrap();
    }
    register(&mut core);
    core.enable_interrupts();
    core
}

#[test]
fn divide_by_zero_halts() {
    let mut core = booted();
    assert!(core.interrupts_enabled);
    match core.dispatch(0, None) {
        Dispatch::Fatal { vector, error_code } => {
            assert_eq!(vector, 0);
            assert_eq!(error_code, None);
        }
        other => panic!("unexpected {:?}", other),
    }
    assert_eq!(core.state, SystemState::Halted);
    assert!(core.is_halted());
    assert!(!core.interrupts_enabled);
    assert!(matches!(core.dispatch(33, None), Dispatch::Ignored));
    assert!(matches!(core.dispatch(0, None), Dispatch::Ignored));
    core.enable_interrupts();
    assert!(!core.interrupts_enabled);
}

#[test]
fn exception_halts_even_before_boot() {
    let mut core = InterruptCore::new();
    assert!(matches!(core.dispatch(0, None), Dispatch::Fatal { vector: 0, error_code: None }));
    assert!(core.is_halted());
    let mut core = booted();
    assert!(matches!(
        core.dispatch(13, Some(0x18)),
        Dispatch::Fatal { vector: 13, error_code: Some(0x18) }
    ));
    assert!(!core.interrupts_enabled);
}

#[test]
fn keyboard_interrupt_is_acknowledged_on_master() {
    let mut core = booted();
    match core.dispatch(33, None) {
        Dispatch::Device { irq, eoi } => {
            assert_eq!(irq, 1);
            assert_eq!(eoi, vec![PortWrite { port: 0x20, value: 0x20 }]);
        }
        other => panic!("unexpected {:?}", other),
    }
    assert_eq!(core.state, SystemState::Running);
}

#[test]
fn mouse_interrupt_is_acknowledged_slave_first() {
    let mut core = booted();
    match core.dispatch(44, None) {
        Dispatch::Device { irq, eoi } => {
            assert_eq!(irq, 12);
            assert_eq!(
                eoi,
                vec![PortWrite { port: 0xA0, value: 0x20 }, PortWrite { port: 0x20, value: 0x20 }]
            );
        }
        other => panic!("unexpected {:?}", other),
    }
}

#[test]
fn unbound_or_unrouted_vectors_are_ignored() {
    let mut core = InterruptCore::new();
    register(&mut core);
    assert!(matches!(core.dispatch(33, None), Dispatch::Ignored));
    let mut core = booted();
    assert!(matches!(core.dispatch(48, None), Dispatch::Ignored));
    assert!(matches!(core.dispatch(200, None), Dispatch::Ignored));
    assert!(core.bind_handler(300, 0, 8).is_err());
}

#[test]
fn exception_names_and_error_codes() {
    assert_eq!(exception_name(0), "divide by zero");
    assert_eq!(exception_name(14), "page fault");
    assert_eq!(exception_name(30), "security exception");
    assert_eq!(exception_name(9), "reserved");
    assert!(has_error_code(8));
    assert!(has_error_code(14));
    assert!(!has_error_code(0));
    assert!(!has_error_code(9));
}
