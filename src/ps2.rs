use vstd::prelude::*;

verus! {

/// Data port: device bytes, and the configuration byte on a write-configuration command.
pub const PS2_DATA: u16 = 0x60;

/// Status register on read, command register on write.
pub const PS2_STATUS: u16 = 0x64;

/// Command register; the same address as the status register.
pub const PS2_COMMAND: u16 = 0x64;

/// Command: enable the auxiliary (mouse) port.
pub const PS2_ENABLE_AUX: u8 = 0xA8;

/// Command: read the controller configuration byte.
pub const PS2_READ_CONFIG: u8 = 0x20;

/// Command: write the controller configuration byte (the byte follows on the data port).
pub const PS2_WRITE_CONFIG: u8 = 0x60;

/// Device byte: enable scanning.
pub const PS2_ENABLE_SCAN: u8 = 0xF4;

/// Status bit 0: the output buffer holds a byte to read.
pub const STATUS_OUTPUT_FULL: u8 = 0x01;

/// Status bit 1: the input buffer is full; no write may happen yet.
pub const STATUS_INPUT_FULL: u8 = 0x02;

/// Status bit 5: the byte in the output buffer came from the auxiliary device.
pub const STATUS_AUX_DATA: u8 = 0x20;

/// Number of protocol operations in the bring-up.
pub const BRINGUP_STEPS: usize = 9;

/// One operation of the protocol.
#[derive(Clone, Copy, Debug, PartialEq, Eq, Structural)]
pub enum Ps2Op {
    Command(u8),
    Data(u8),
    Read,
}

/// What the driver of the bring-up must do next.
#[derive(Clone, Copy, Debug, PartialEq, Eq, Structural)]
pub enum Ps2Action {
    ReadStatus,
    WriteCommand(u8),
    WriteData(u8),
    ReadData,
    Done,
}

/// What the driver observed after doing the action.
#[derive(Clone, Copy, Debug, PartialEq, Eq, Structural)]
pub enum Ps2Event {
    Status(u8),
    Written,
    Data(u8),
}

/// What a poll of the controller should do after reading the status register.
#[derive(Clone, Copy, Debug, PartialEq, Eq, Structural)]
pub enum PollAction {
    NoData,
    ReadData,
}

/// A byte read from the controller, by source.
#[derive(Clone, Copy, Debug, PartialEq, Eq, Structural)]
pub enum Ps2Input {
    NoData,
    Keyboard(u8),
    Mouse(u8),
}

/// The controller's three registers.
#[derive(Clone, Copy, Debug)]
pub struct Ps2Controller {
    pub status_port: u16,
    pub command_port: u16,
    pub data_port: u16,
}

/// The bring-up handshake, as a state machine driven by the observed status and data bytes.
#[derive(Debug)]
pub struct Ps2Bringup {
    step: usize,
    gated: bool,
    config: u8,
    issued: Vec<Ps2Op>,
    responses: Vec<u8>,
}

/// The configuration byte with the first port's interrupt enabled (bit 1) and the auxiliary
/// port's clock enabled (bit 5 cleared).
pub open spec fn configure(c: u8) -> u8 {
    (c | 0x02u8) & !0x20u8
}

/// The protocol operations of the bring-up, in order, given the configuration byte read.
pub open spec fn bringup_ops(config: u8) -> Seq<Ps2Op> {
    seq![
        Ps2Op::Command(PS2_ENABLE_AUX),
        Ps2Op::Read,
        Ps2Op::Command(PS2_READ_CONFIG),
        Ps2Op::Read,
        Ps2Op::Command(PS2_WRITE_CONFIG),
        Ps2Op::Data(configure(config)),
        Ps2Op::Read,
        Ps2Op::Data(PS2_ENABLE_SCAN),
        Ps2Op::Read,
    ]
}

/// The number of reads among the first `step` operations.
pub open spec fn reads_before(step: int) -> int {
    if step <= 1 {
        0
    } else if step <= 3 {
        1
    } else if step <= 6 {
        2
    } else if step <= 8 {
        3
    } else {
        4
    }
}

/// Whether the status byte allows the operation: a read waits for a full output buffer, a
/// write for an empty input buffer.
pub open spec fn gate_open(op: Ps2Op, status: u8) -> bool {
    match op {
        Ps2Op::Read => status & STATUS_OUTPUT_FULL != 0,
        _ => status & STATUS_INPUT_FULL == 0,
    }
}

/// The action that performs an operation.
pub open spec fn op_action(op: Ps2Op) -> Ps2Action {
    match op {
        Ps2Op::Command(c) => Ps2Action::WriteCommand(c),
        Ps2Op::Data(d) => Ps2Action::WriteData(d),
        Ps2Op::Read => Ps2Action::ReadData,
    }
}

/// What a poll does on a status byte: read the data port only when the output buffer is full.
pub open spec fn poll_spec(status: u8) -> PollAction {
    if status & STATUS_OUTPUT_FULL != 0 {
        PollAction::ReadData
    } else {
        PollAction::NoData
    }
}

fn configure_byte(c: u8) -> (r: u8)
    ensures
        r == configure(c),
{
    (c | 0x02) & !0x20
}

impl Ps2Controller {
    /// The controller on its standard ports.
    pub fn new() -> (r: Ps2Controller)
        ensures
            r.status_port == PS2_STATUS,
            r.command_port == PS2_COMMAND,
            r.data_port == PS2_DATA,
    {
        Ps2Controller { status_port: PS2_STATUS, command_port: PS2_COMMAND, data_port: PS2_DATA }
    }

    /// After reading the status register: whether to read one data byte.
    pub fn poll(&self, status: u8) -> (r: PollAction)
        ensures
            r == poll_spec(status),
    {
        if status & STATUS_OUTPUT_FULL != 0 {
            PollAction::ReadData
        } else {
            PollAction::NoData
        }
    }

    /// Names the source of a byte read under `status`: the mouse when bit 5 is set, else the
    /// keyboard; no data when bit 0 of `status` is clear.
    pub fn classify(&self, status: u8, byte: u8) -> (r: Ps2Input)
        ensures
            status & STATUS_OUTPUT_FULL == 0 ==> r == Ps2Input::NoData,
            status & STATUS_OUTPUT_FULL != 0 && status & STATUS_AUX_DATA != 0 ==> r
                == Ps2Input::Mouse(byte),
            status & STATUS_OUTPUT_FULL != 0 && status & STATUS_AUX_DATA == 0 ==> r
                == Ps2Input::Keyboard(byte),
    {
        if status & STATUS_OUTPUT_FULL == 0 {
            Ps2Input::NoData
        } else if status & STATUS_AUX_DATA != 0 {
            Ps2Input::Mouse(byte)
        } else {
            Ps2Input::Keyboard(byte)
        }
    }
}

impl Ps2Bringup {
    pub closed spec fn step_spec(&self) -> int {
        self.step as int
    }

    pub closed spec fn gated_spec(&self) -> bool {
        self.gated
    }

    pub closed spec fn config_spec(&self) -> u8 {
        self.config
    }

    /// The operations performed so far, in order.
    pub closed spec fn issued_spec(&self) -> Seq<Ps2Op> {
        self.issued@
    }

    /// The bytes read so far, in order.
    pub closed spec fn responses_spec(&self) -> Seq<u8> {
        self.responses@
    }

    pub open spec fn current_op(&self) -> Ps2Op {
        bringup_ops(self.config_spec())[self.step_spec()]
    }

    pub open spec fn is_done(&self) -> bool {
        self.step_spec() == BRINGUP_STEPS
    }

    pub open spec fn wf(&self) -> bool {
        &&& 0 <= self.step_spec() <= BRINGUP_STEPS
        &&& self.is_done() ==> !self.gated_spec()
        &&& self.issued_spec() == bringup_ops(self.config_spec()).take(self.step_spec())
        &&& self.responses_spec().len() == reads_before(self.step_spec())
        &&& self.step_spec() >= 4 ==> self.config_spec() == self.responses_spec()[1]
    }

    /// The next action: a status read until the current operation's gate opens, then the
    /// operation itself; `Done` after the last.
    pub open spec fn action_spec(&self) -> Ps2Action {
        if self.is_done() {
            Ps2Action::Done
        } else if !self.gated_spec() {
            Ps2Action::ReadStatus
        } else {
            op_action(self.current_op())
        }
    }

    /// The handshake before its first operation.
    pub fn new() -> (r: Ps2Bringup)
        ensures
            r.wf(),
            r.step_spec() == 0,
            !r.gated_spec(),
            r.action_spec() == Ps2Action::ReadStatus,
    {
        let r = Ps2Bringup {
            step: 0,
            gated: false,
            config: 0,
            issued: Vec::new(),
            responses: Vec::new(),
        };
        assert(r.issued@ =~= bringup_ops(0).take(0));
        r
    }

    fn current(&self) -> (r: Ps2Op)
        requires
            self.wf(),
            !self.is_done(),
        ensures
            r == self.current_op(),
    {
        match self.step {
            0 => Ps2Op::Command(PS2_ENABLE_AUX),
            1 => Ps2Op::Read,
            2 => Ps2Op::Command(PS2_READ_CONFIG),
            3 => Ps2Op::Read,
            4 => Ps2Op::Command(PS2_WRITE_CONFIG),
            5 => Ps2Op::Data(configure_byte(self.config)),
            6 => Ps2Op::Read,
            7 => Ps2Op::Data(PS2_ENABLE_SCAN),
            _ => Ps2Op::Read,
        }
    }

    /// What to do next.
    pub fn action(&self) -> (r: Ps2Action)
        requires
            self.wf(),
        ensures
            r == self.action_spec(),
    {
        if self.step == BRINGUP_STEPS {
            Ps2Action::Done
        } else if !self.gated {
            Ps2Action::ReadStatus
        } else {
            match self.current() {
                Ps2Op::Command(c) => Ps2Action::WriteCommand(c),
                Ps2Op::Data(d) => Ps2Action::WriteData(d),
                Ps2Op::Read => Ps2Action::ReadData,
            }
        }
    }

    /// Takes what the driver observed and returns the next action. A status byte opens the
    /// gate of the current operation when it allows it; the completion of a write, or the byte
    /// of a read, completes the current operation (the byte is recorded, and the second one
    /// read is the configuration byte). Any other event changes nothing.
    pub fn handle(&mut self, event: Ps2Event) -> (r: Ps2Action)
        requires
            old(self).wf(),
        ensures
            final(self).wf(),
            r == final(self).action_spec(),
            final(self).step_spec() == old(self).step_spec() || final(self).step_spec()
                == old(self).step_spec() + 1,
            ({
                let o = *old(self);
                let f = *final(self);
                if o.is_done() {
                    f == o
                } else if !o.gated_spec() {
                    match event {
                        Ps2Event::Status(s) => f.step_spec() == o.step_spec() && f.config_spec()
                            == o.config_spec() && f.issued_spec() == o.issued_spec()
                            && f.responses_spec() == o.responses_spec() && f.gated_spec()
                            == gate_open(o.current_op(), s),
                        _ => f == o,
                    }
                } else {
                    match (o.current_op(), event) {
                        (Ps2Op::Read, Ps2Event::Data(b)) => f.step_spec() == o.step_spec() + 1
                            && !f.gated_spec() && f.issued_spec() == o.issued_spec().push(
                            Ps2Op::Read,
                        ) && f.responses_spec() == o.responses_spec().push(b) && f.config_spec()
                            == (if o.step_spec() == 3 {
                            b
                        } else {
                            o.config_spec()
                        }),
                        (Ps2Op::Command(_), Ps2Event::Written) | (
                            Ps2Op::Data(_),
                            Ps2Event::Written,
                        ) => f.step_spec() == o.step_spec() + 1 && !f.gated_spec()
                            && f.issued_spec() == o.issued_spec().push(o.current_op())
                            && f.responses_spec() == o.responses_spec() && f.config_spec()
                            == o.config_spec(),
                        _ => f == o,
                    }
                }
            }),
    {
        if self.step == BRINGUP_STEPS {
            return Ps2Action::Done;
        }
        let op = self.current();
        if !self.gated {
            if let Ps2Event::Status(s) = event {
                self.gated = match op {
                    Ps2Op::Read => s & STATUS_OUTPUT_FULL != 0,
                    _ => s & STATUS_INPUT_FULL == 0,
                };
            }
        } else {
            let ghost old_self = *self;
            let completes = match (op, event) {
                (Ps2Op::Read, Ps2Event::Data(_)) => true,
                (Ps2Op::Command(_), Ps2Event::Written) => true,
                (Ps2Op::Data(_), Ps2Event::Written) => true,
                _ => false,
            };
            if completes {
                if let Ps2Event::Data(b) = event {
                    self.responses.push(b);
                    if self.step == 3 {
                        self.config = b;
                    }
                }
                self.issued.push(op);
                self.step = self.step + 1;
                self.gated = false;
                proof {
                    let s = old_self.step as int;
                    assert(bringup_ops(self.config).take(s) =~= bringup_ops(
                        old_self.config,
                    ).take(s)) by {
                        assert forall|k: int| 0 <= k < s implies bringup_ops(self.config)[k]
                            == bringup_ops(old_self.config)[k] by {
                            if k == 5 {
                                assert(s > 5);
                            }
                        }
                    }
                    assert(op == bringup_ops(self.config)[s]) by {
                        if s == 5 {
                            assert(self.config == old_self.config);
                        }
                    }
                    assert(self.issued@ =~= bringup_ops(self.config).take(s + 1));
                }
            }
        }
        self.action()
    }

    /// The operations performed so far, in order.
    pub fn issued(&self) -> (r: &[Ps2Op])
        ensures
            r@ == self.issued_spec(),
    {
        self.issued.as_slice()
    }

    /// The bytes read so far, in order.
    pub fn responses(&self) -> (r: &[u8])
        ensures
            r@ == self.responses_spec(),
    {
        self.responses.as_slice()
    }

    /// Whether the handshake has performed its last operation.
    pub fn is_finished(&self) -> (r: bool)
        ensures
            r == self.is_done(),
    {
        self.step == BRINGUP_STEPS
    }
}

/// Whatever bytes the controller answered, a finished handshake performed exactly:
/// enable-auxiliary command, read, read-configuration command, read, write-configuration
/// command, the configuration byte read with bit 1 set and bit 5 clear (the other bits
/// kept), read, enable-scanning byte, read.
pub proof fn lemma_bringup_order(b: Ps2Bringup)
    requires
        b.wf(),
        b.is_done(),
    ensures
        b.responses_spec().len() == 4,
        b.issued_spec() == seq![
            Ps2Op::Command(0xA8),
            Ps2Op::Read,
            Ps2Op::Command(0x20),
            Ps2Op::Read,
            Ps2Op::Command(0x60),
            Ps2Op::Data(configure(b.responses_spec()[1])),
            Ps2Op::Read,
            Ps2Op::Data(0xF4),
            Ps2Op::Read,
        ],
        configure(b.responses_spec()[1]) & 0x02 != 0,
        configure(b.responses_spec()[1]) & 0x20 == 0,
        configure(b.responses_spec()[1]) & !0x22u8 == b.responses_spec()[1] & !0x22u8,
{
    let c = b.responses_spec()[1];
    assert(bringup_ops(b.config_spec()).take(9) =~= bringup_ops(b.config_spec()));
    assert(((c | 0x02u8) & !0x20u8) & 0x02u8 != 0 && ((c | 0x02u8) & !0x20u8) & 0x20u8 == 0 && ((
    c | 0x02u8) & !0x20u8) & !0x22u8 == c & !0x22u8) by (bit_vector);
}

} // verus!
