use interrupt_core::pic::{enable_pics_and_remap_irqs, irq_clear, PicPair, PicState, PortWrite};
use interrupt_core::ps2::{
    PollAction, Ps2Action, Ps2Bringup, Ps2Controller, Ps2Event, Ps2Input, Ps2Op,
};

fn w(port: u16, value: u8) -> PortWrite {
    PortWrite { port, value }
}

#[test]
fn remap_sequence_and_ranges() {
    let mut p = PicPair::new();
    let writes = enable_pics_and_remap_irqs(&mut p);
    assert_eq!(
        writes,
        vec![
            w(0x20, 0x11),
            w(0xA0, 0x11),
            w(0x21, 0x20),
            w(0xA1, 0x28),
            w(0x21, 0x01),
            w(0xA1, 0x01),
            w(0x21, 0x00),
            w(0xA1, 0x00),
        ]
    );
    assert_eq!(p.state, PicState::Ready);
    for v in 0u8..=255 {
        assert_eq!(p.master.handles(v), (32..40).contains(&v));
        assert_eq!(p.slave.handles(v), (40..48).contains(&v));
    }
    for v in 0u8..32 {
        assert_eq!(p.irq_of_vector(v), None);
    }
    assert_eq!(p.irq_of_vector(33), Some(1));
    assert_eq!(p.irq_of_vector(44), Some(12));
}

#[test]
fn acknowledge_keyboard_writes_master_only() {
    let mut p = PicPair::new();
    enable_pics_and_remap_irqs(&mut p);
    assert_eq!(p.acknowledge(33), Some(vec![w(0x20, 0x20)]));
    assert_eq!(irq_clear(false), vec![w(0x20, 0x20)]);
}

#[test]
fn acknowledge_mouse_writes_slave_then_master() {
    let mut p = PicPair::new();
    enable_pics_and_remap_irqs(&mut p);
    assert_eq!(p.acknowledge(44), Some(vec![w(0xA0, 0x20), w(0x20, 0x20)]));
    assert_eq!(irq_clear(true), vec![w(0xA0, 0x20), w(0x20, 0x20)]);
}

#[test]
fn acknowledge_needs_setup_and_a_routed_vector() {
    let mut p = PicPair::new();
    assert_eq!(p.acknowledge(33), None);
    enable_pics_and_remap_irqs(&mut p);
    assert_eq!(p.acknowledge(0), None);
    assert_eq!(p.acknowledge(48), None);
}

#[test]
fn masking_updates_the_right_controller() {
    let mut p = PicPair::new();
    enable_pics_and_remap_irqs(&mut p);
    assert_eq!(p.set_masked(1, true), w(0x21, 0x02));
    assert_eq!(p.set_masked(12, true), w(0xA1, 0x10));
    assert_eq!(p.set_masked(1, false), w(0x21, 0x00));
    assert_eq!(p.slave.mask, 0x10);
}

/// Drives the bring-up against a controller that answers `replies` in turn and is ready
/// every second status read. Returns the port operations seen, in order.
fn run_bringup(replies: &[u8]) -> (Vec<Ps2Op>, Ps2Bringup, usize) {
    let mut b = Ps2Bringup::new();
    let mut action = b.action();
    let mut seen = Vec::new();
    let mut reply = 0;
    let mut status_reads = 0usize;
    loop {
        let event = match action {
            Ps2Action::Done => break,
            Ps2Action::ReadStatus => {
                status_reads += 1;
                let ready = status_reads % 2 == 0;
                // output full when ready for reads; input full when not ready for writes
                Ps2Event::Status(if ready { 0x01 } else { 0x02 })
            }
            Ps2Action::WriteCommand(c) => {
                seen.push(Ps2Op::Command(c));
                Ps2Event::Written
            }
            Ps2Action::WriteData(d) => {
                seen.push(Ps2Op::Data(d));
                Ps2Event::Written
            }
            Ps2Action::ReadData => {
                seen.push(Ps2Op::Read);
                let r = replies[reply];
                reply += 1;
                Ps2Event::Data(r)
            }
        };
        action = b.handle(event);
    }
    (seen, b, status_reads)
}

#[test]
fn bringup_issues_commands_in_order() {
    let (seen, b, status_reads) = run_bringup(&[0xFA, 0b0110_0101, 0xFA, 0xFA]);
    let expected = vec![
        Ps2Op::Command(0xA8),
        Ps2Op::Read,
        Ps2Op::Command(0x20),
        Ps2Op::Read,
        Ps2Op::Command(0x60),
        Ps2Op::Data(0b0100_0111),
        Ps2Op::Read,
        Ps2Op::Data(0xF4),
        Ps2Op::Read,
    ];
    assert_eq!(seen, expected);
    assert_eq!(b.issued(), &expected[..]);
    assert_eq!(b.responses(), &[0xFA, 0b0110_0101, 0xFA, 0xFA]);
    assert!(b.is_finished());
    assert_eq!(status_reads, 18);
}

#[test]
fn bringup_waits_for_the_status_gate() {
    let mut b = Ps2Bringup::new();
    assert_eq!(b.action(), Ps2Action::ReadStatus);
    // input buffer full: no write yet
    assert_eq!(b.handle(Ps2Event::Status(0x02)), Ps2Action::ReadStatus);
    // an event out of turn changes nothing
    assert_eq!(b.handle(Ps2Event::Written), Ps2Action::ReadStatus);
    assert_eq!(b.handle(Ps2Event::Status(0x00)), Ps2Action::WriteCommand(0xA8));
    assert_eq!(b.handle(Ps2Event::Written), Ps2Action::ReadStatus);
    // output buffer empty: no read yet
    assert_eq!(b.handle(Ps2Event::Status(0x00)), Ps2Action::ReadStatus);
    assert_eq!(b.handle(Ps2Event::Status(0x01)), Ps2Action::ReadData);
    assert_eq!(b.handle(Ps2Event::Data(0xAA)), Ps2Action::ReadStatus);
    assert_eq!(b.issued(), &[Ps2Op::Command(0xA8), Ps2Op::Read]);
    assert_eq!(b.responses(), &[0xAA]);
}

#[test]
fn bringup_config_byte_transform() {
    let (seen, _, _) = run_bringup(&[0x00, 0xFF, 0x00, 0x00]);
    assert_eq!(seen[5], Ps2Op::Data(0xDF));
    let (seen, _, _) = run_bringup(&[0x00, 0x00, 0x00, 0x00]);
    assert_eq!(seen[5], Ps2Op::Data(0x02));
}

#[test]
fn poll_without_data_reads_nothing() {
    let c = Ps2Controller::new();
    assert_eq!(c.poll(0x00), PollAction::NoData);
    assert_eq!(c.poll(0x20), PollAction::NoData);
    assert_eq!(c.poll(0xFE), PollAction::NoData);
    assert_eq!(c.classify(0x20, 0x12), Ps2Input::NoData);
}

#[test]
fn poll_classifies_keyboard_and_mouse() {
    let c = Ps2Controller::new();
    assert_eq!(c.poll(0x01), PollAction::ReadData);
    assert_eq!(c.classify(0x01, 0x1c), Ps2Input::Keyboard(0x1c));
    assert_eq!(c.classify(0x21, 0x08), Ps2Input::Mouse(0x08));
    assert_eq!((c.status_port, c.command_port, c.data_port), (0x64, 0x64, 0x60));
}
