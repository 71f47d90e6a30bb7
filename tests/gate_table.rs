use interrupt_core::idt::{Idt, IdtDescriptor, IdtEntry, IdtEntryOption, IdtError};

fn present(w: u16) -> bool {
    w & 0x8000 != 0
}

fn interrupts_enabled(w: u16) -> bool {
    w & 0x0100 != 0
}

fn privilege(w: u16) -> u16 {
    (w >> 13) & 3
}

fn stack_index(w: u16) -> u16 {
    w & 7
}

fn reserved(w: u16) -> u16 {
    (w >> 9) & 7
}

#[test]
fn new_entry_is_not_present_with_reserved_bits() {
    let e = IdtEntry::new();
    assert_eq!(e.options(), 0x0e00);
    assert!(!e.is_present());
    assert_eq!(reserved(e.options()), 0b111);
    assert_eq!(e.target(), 0);
    assert_eq!(e.selector(), 0);
}

#[test]
fn set_option_sets_each_field() {
    let mut e = IdtEntry::new();
    e.set_option(IdtEntryOption::Present);
    assert_eq!(e.options(), 0x8e00);
    e.set_option(IdtEntryOption::EnableInterrupts);
    assert_eq!(e.options(), 0x8f00);
    e.set_option(IdtEntryOption::User);
    assert_eq!(e.options(), 0xef00);
    e.set_option(IdtEntryOption::StackIndex(5));
    assert_eq!(e.options(), 0xef05);
    e.set_option(IdtEntryOption::Supervisor);
    assert_eq!(e.options(), 0x8f05);
    e.set_option(IdtEntryOption::DisableInterrupts);
    assert_eq!(e.options(), 0x8e05);
    e.set_option(IdtEntryOption::NotPresent);
    assert_eq!(e.options(), 0x0e05);
}

#[test]
fn last_option_per_field_wins() {
    let ops = [
        IdtEntryOption::StackIndex(3),
        IdtEntryOption::User,
        IdtEntryOption::Present,
        IdtEntryOption::EnableInterrupts,
        IdtEntryOption::StackIndex(6),
        IdtEntryOption::NotPresent,
        IdtEntryOption::Supervisor,
        IdtEntryOption::Present,
        IdtEntryOption::User,
    ];
    let mut e = IdtEntry::new();
    for o in ops.iter() {
        e.set_option(*o);
        assert_eq!(reserved(e.options()), 0b111);
    }
    let w = e.options();
    assert!(present(w));
    assert!(interrupts_enabled(w));
    assert_eq!(privilege(w), 3);
    assert_eq!(stack_index(w), 6);
    assert_eq!(w & 0x1ef8, 0x0e00);
}

#[test]
fn bind_writes_all_fields() {
    let mut idt = Idt::new();
    let target: u64 = 0x1234_5678_9abc_def0;
    let r = idt.bind(33, target, 0x08, &[IdtEntryOption::Present, IdtEntryOption::DisableInterrupts]);
    assert_eq!(r, Ok(()));
    let e = idt.entry(33).unwrap();
    assert_eq!(e.target(), target);
    assert_eq!(e.selector(), 0x08);
    assert_eq!(e.options(), 0x8e00);
    assert!(!idt.entry(32).unwrap().is_present());
}

#[test]
fn bind_out_of_range_vector_fails() {
    let mut idt = Idt::new();
    assert_eq!(idt.bind(256, 1, 8, &[IdtEntryOption::Present]), Err(IdtError::InvalidVector));
    assert!(idt.entry(256).is_none());
    assert!(idt.bind(255, 1, 8, &[IdtEntryOption::Present]).is_ok());
    assert!(idt.entry(255).unwrap().is_present());
}

#[test]
fn entry_bytes_match_cpu_layout() {
    let mut idt = Idt::new();
    idt.bind(0, 0x1122_3344_5566_7788, 0x0010, &[IdtEntryOption::Present]).unwrap();
    let b = idt.entry(0).unwrap().to_bytes();
    assert_eq!(
        b,
        vec![0x88, 0x77, 0x10, 0x00, 0x00, 0x8e, 0x66, 0x55, 0x44, 0x33, 0x22, 0x11, 0, 0, 0, 0]
    );
}

#[test]
fn table_encoding_places_each_gate_by_vector() {
    let mut idt = Idt::new();
    idt.bind(2, 0xabcd, 0x08, &[IdtEntryOption::Present]).unwrap();
    let bytes = idt.encode();
    assert_eq!(bytes.len(), 4096);
    assert_eq!(&bytes[32..48], &idt.entry(2).unwrap().to_bytes()[..]);
    assert_eq!(&bytes[0..16], &[0, 0, 0, 0, 0x00, 0x0e, 0, 0, 0, 0, 0, 0, 0, 0, 0, 0]);
    assert_eq!(bytes[32], 0xcd);
    assert_eq!(bytes[33], 0xab);
}

#[test]
fn descriptor_limit_covers_whole_table() {
    let d = IdtDescriptor::new(0xdead_b000);
    assert_eq!(d.limit, 4095);
    assert_eq!(d.base, 0xdead_b000);
}

#[test]
fn default_entry_is_present_interrupt_gate() {
    let e = IdtEntry::default();
    assert_eq!(e.options(), 0x8e00);
    assert!(e.is_present());
    assert!(!interrupts_enabled(e.options()));
}
