use vstd::prelude::*;

verus! {

/// Master controller command port.
pub const PIC_MASTER_COMMAND: u16 = 0x20;

/// Master controller data port.
pub const PIC_MASTER_DATA: u16 = 0x21;

/// Slave controller command port.
pub const PIC_SLAVE_COMMAND: u16 = 0xA0;

/// Slave controller data port.
pub const PIC_SLAVE_DATA: u16 = 0xA1;

/// Initialization command: edge triggered, cascaded, fourth setup byte follows.
pub const PIC_INIT: u8 = 0x11;

/// End-of-interrupt command.
pub const PIC_EOI: u8 = 0x20;

/// Cascade wiring byte written to each data port.
pub const PIC_CASCADE: u8 = 0x01;

/// Operating-mode byte written to each data port.
pub const PIC_MODE: u8 = 0x00;

/// The conventional master vector offset; the slave's follows eight vectors later.
pub const MASTER_OFFSET: u8 = 0x20;

/// One byte written to one I/O port.
#[derive(Clone, Copy, Debug, PartialEq, Eq, Structural)]
pub struct PortWrite {
    pub port: u16,
    pub value: u8,
}

/// Where a controller pair stands in its setup.
#[derive(Clone, Copy, Debug, PartialEq, Eq, Structural)]
pub enum PicState {
    Uninitialized,
    Ready,
}

/// One of the two chained controllers.
#[derive(Clone, Copy, Debug)]
pub struct Pic {
    pub command_port: u16,
    pub data_port: u16,
    pub offset: u8,
    pub mask: u8,
}

/// The master and slave controllers, the slave wired to the master's line 2.
#[derive(Clone, Copy, Debug)]
pub struct PicPair {
    pub master: Pic,
    pub slave: Pic,
    pub state: PicState,
}

pub open spec fn port_write(port: u16, value: u8) -> PortWrite {
    PortWrite { port, value }
}

/// The writes that initialize both controllers and move their vectors to `offset` and
/// `offset + 8`.
pub open spec fn remap_writes(offset: u8) -> Seq<PortWrite> {
    seq![
        port_write(PIC_MASTER_COMMAND, PIC_INIT),
        port_write(PIC_SLAVE_COMMAND, PIC_INIT),
        port_write(PIC_MASTER_DATA, offset),
        port_write(PIC_SLAVE_DATA, (offset + 8) as u8),
        port_write(PIC_MASTER_DATA, PIC_CASCADE),
        port_write(PIC_SLAVE_DATA, PIC_CASCADE),
        port_write(PIC_MASTER_DATA, PIC_MODE),
        port_write(PIC_SLAVE_DATA, PIC_MODE),
    ]
}

/// The acknowledgment of an interrupt: the slave first when it routed the interrupt, then
/// the master.
pub open spec fn eoi_writes(slave: bool) -> Seq<PortWrite> {
    if slave {
        seq![port_write(PIC_SLAVE_COMMAND, PIC_EOI), port_write(PIC_MASTER_COMMAND, PIC_EOI)]
    } else {
        seq![port_write(PIC_MASTER_COMMAND, PIC_EOI)]
    }
}

/// A vector offset that keeps both controllers clear of the exception vectors 0..32.
pub open spec fn offset_valid(offset: u8) -> bool {
    32 <= offset <= 240 && offset % 8 == 0
}

impl Pic {
    /// The controller raises vectors `offset..offset + 8`.
    pub open spec fn covers(&self, vector: int) -> bool {
        self.offset <= vector < self.offset + 8
    }

    /// Whether `vector` is one of this controller's eight.
    pub fn handles(&self, vector: u8) -> (r: bool)
        ensures
            r == self.covers(vector as int),
    {
        self.offset <= vector && (vector as u16) < self.offset as u16 + 8
    }
}

impl PicPair {
    pub open spec fn wf(&self) -> bool {
        &&& self.master.command_port == PIC_MASTER_COMMAND
        &&& self.master.data_port == PIC_MASTER_DATA
        &&& self.slave.command_port == PIC_SLAVE_COMMAND
        &&& self.slave.data_port == PIC_SLAVE_DATA
        &&& self.state == PicState::Ready ==> offset_valid(self.master.offset)
            && self.slave.offset == self.master.offset + 8
    }

    /// The IRQ line (0..16) that raises `vector` once the pair is set up.
    pub open spec fn irq_spec(&self, vector: int) -> Option<int> {
        if self.state != PicState::Ready {
            None
        } else if self.master.covers(vector) {
            Some(vector - self.master.offset)
        } else if self.slave.covers(vector) {
            Some(vector - self.slave.offset + 8)
        } else {
            None
        }
    }

    /// The pair on its fixed ports, not yet set up, no line masked.
    pub fn new() -> (r: PicPair)
        ensures
            r.wf(),
            r.state == PicState::Uninitialized,
            r.master.mask == 0,
            r.slave.mask == 0,
    {
        PicPair {
            master: Pic { command_port: PIC_MASTER_COMMAND, data_port: PIC_MASTER_DATA, offset: 0, mask: 0 },
            slave: Pic { command_port: PIC_SLAVE_COMMAND, data_port: PIC_SLAVE_DATA, offset: 0, mask: 0 },
            state: PicState::Uninitialized,
        }
    }

    /// Initializes both controllers and moves their vectors to `offset..offset + 8` (master)
    /// and `offset + 8..offset + 16` (slave); returns the port writes, in order.
    pub fn remap(&mut self, offset: u8) -> (r: Vec<PortWrite>)
        requires
            old(self).wf(),
            offset_valid(offset),
        ensures
            final(self).wf(),
            r@ == remap_writes(offset),
            final(self).state == PicState::Ready,
            final(self).master.offset == offset,
            final(self).slave.offset == offset + 8,
            final(self).master.mask == old(self).master.mask,
            final(self).slave.mask == old(self).slave.mask,
    {
        let slave_offset = offset + 8;
        let mut r: Vec<PortWrite> = Vec::new();
        r.push(PortWrite { port: self.master.command_port, value: PIC_INIT });
        r.push(PortWrite { port: self.slave.command_port, value: PIC_INIT });
        r.push(PortWrite { port: self.master.data_port, value: offset });
        r.push(PortWrite { port: self.slave.data_port, value: slave_offset });
        r.push(PortWrite { port: self.master.data_port, value: PIC_CASCADE });
        r.push(PortWrite { port: self.slave.data_port, value: PIC_CASCADE });
        r.push(PortWrite { port: self.master.data_port, value: PIC_MODE });
        r.push(PortWrite { port: self.slave.data_port, value: PIC_MODE });
        self.master.offset = offset;
        self.slave.offset = slave_offset;
        self.state = PicState::Ready;
        assert(r@ =~= remap_writes(offset));
        r
    }

    /// The IRQ line that raises `vector`, if the pair is set up and one of them raises it.
    pub fn irq_of_vector(&self, vector: u8) -> (r: Option<u8>)
        requires
            self.wf(),
        ensures
            r matches Some(l) ==> self.irq_spec(vector as int) == Some(l as int),
            r is None ==> self.irq_spec(vector as int) is None,
    {
        if self.state != PicState::Ready {
            None
        } else if self.master.handles(vector) {
            Some(vector - self.master.offset)
        } else if self.slave.handles(vector) {
            Some(vector - self.slave.offset + 8)
        } else {
            None
        }
    }

    /// The acknowledgment writes for the interrupt that raised `vector`, or `None` when
    /// neither controller raises it.
    pub fn acknowledge(&self, vector: u8) -> (r: Option<Vec<PortWrite>>)
        requires
            self.wf(),
        ensures
            r is None <==> self.irq_spec(vector as int) is None,
            r matches Some(w) ==> w@ == eoi_writes(self.irq_spec(vector as int).unwrap() >= 8),
    {
        match self.irq_of_vector(vector) {
            Some(line) => Some(irq_clear(line >= 8)),
            None => None,
        }
    }

    /// Masks (`masked`) or unmasks IRQ line `irq`; returns the write of the controller's new
    /// mask byte to its data port.
    pub fn set_masked(&mut self, irq: u8, masked: bool) -> (r: PortWrite)
        requires
            old(self).wf(),
            irq < 16,
        ensures
            final(self).wf(),
            final(self).state == old(self).state,
            final(self).master.offset == old(self).master.offset,
            final(self).slave.offset == old(self).slave.offset,
            irq < 8 ==> final(self).slave == old(self).slave && final(self).master.mask == (
                if masked {
                    old(self).master.mask | (1u8 << irq)
                } else {
                    old(self).master.mask & !(1u8 << irq)
                }) && r == port_write(PIC_MASTER_DATA, final(self).master.mask),
            irq >= 8 ==> final(self).master == old(self).master && final(self).slave.mask == (
                if masked {
                    old(self).slave.mask | (1u8 << ((irq - 8) as u8))
                } else {
                    old(self).slave.mask & !(1u8 << ((irq - 8) as u8))
                }) && r == port_write(PIC_SLAVE_DATA, final(self).slave.mask),
    {
        if irq < 8 {
            let bit: u8 = 1u8 << irq;
            self.master.mask = if masked {
                self.master.mask | bit
            } else {
                self.master.mask & !bit
            };
            PortWrite { port: self.master.data_port, value: self.master.mask }
        } else {
            let bit: u8 = 1u8 << (irq - 8);
            self.slave.mask = if masked {
                self.slave.mask | bit
            } else {
                self.slave.mask & !bit
            };
            PortWrite { port: self.slave.data_port, value: self.slave.mask }
        }
    }
}

/// The controllers set up with the conventional offsets: master vectors 32..40, slave
/// vectors 40..48. Returns the port writes, in order.
pub fn enable_pics_and_remap_irqs(pics: &mut PicPair) -> (r: Vec<PortWrite>)
    requires
        old(pics).wf(),
    ensures
        final(pics).wf(),
        r@ == remap_writes(MASTER_OFFSET),
        final(pics).state == PicState::Ready,
        final(pics).master.offset == 0x20,
        final(pics).slave.offset == 0x28,
{
    pics.remap(MASTER_OFFSET)
}

/// The end-of-interrupt writes: to the slave command port first when `slave` holds, then
/// always to the master command port.
pub fn irq_clear(slave: bool) -> (r: Vec<PortWrite>)
    ensures
        r@ == eoi_writes(slave),
{
    let mut r: Vec<PortWrite> = Vec::new();
    if slave {
        r.push(PortWrite { port: PIC_SLAVE_COMMAND, value: PIC_EOI });
    }
    r.push(PortWrite { port: PIC_MASTER_COMMAND, value: PIC_EOI });
    assert(r@ =~= eoi_writes(slave));
    r
}

/// After setup with the conventional offsets the master raises exactly vectors 32..40 and
/// the slave exactly 40..48: the two ranges are disjoint and clear of the exception vectors
/// 0..32.
pub proof fn lemma_conventional_ranges(p: PicPair)
    requires
        p.wf(),
        p.state == PicState::Ready,
        p.master.offset == MASTER_OFFSET,
    ensures
        forall|v: int| #[trigger] p.master.covers(v) <==> 32 <= v < 40,
        forall|v: int| #[trigger] p.slave.covers(v) <==> 40 <= v < 48,
        forall|v: int| 0 <= v < 32 ==> #[trigger] p.irq_spec(v) is None,
        forall|v: int| !(p.master.covers(v) && #[trigger] p.slave.covers(v)),
{
}

/// For any valid offset, the vectors of the two controllers are disjoint and none is an
/// exception vector; each IRQ line maps to one vector.
pub proof fn lemma_remap_disjoint(p: PicPair, v: int)
    requires
        p.wf(),
        p.state == PicState::Ready,
    ensures
        !(p.master.covers(v) && p.slave.covers(v)),
        p.master.covers(v) || p.slave.covers(v) ==> v >= 32,
        p.irq_spec(v) matches Some(l) ==> 0 <= l < 16 && v == p.master.offset + l,
{
}

} // verus!
