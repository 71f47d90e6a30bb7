use crate::idt::{
    apply_options, opt_present, Idt, IdtEntryOption, IdtError, IDT_ENTRY_COUNT,
};
use crate::pic::{eoi_writes, enable_pics_and_remap_irqs, PicPair, PicState, PortWrite};
use crate::ps2::{Ps2Controller, PS2_COMMAND, PS2_DATA, PS2_STATUS};
use vstd::prelude::*;

verus! {

/// Vectors below this one are CPU exceptions.
pub const EXCEPTION_VECTORS: u8 = 32;

/// Whether the system still takes interrupts.
#[derive(Clone, Copy, Debug, PartialEq, Eq, Structural)]
pub enum SystemState {
    Running,
    Halted,
}

/// What the dispatcher decided for one interrupt.
#[derive(Debug)]
pub enum Dispatch {
    /// No handler runs: the system is halted, or nothing is bound to the vector.
    Ignored,
    /// A CPU exception: report it, then stay halted with interrupts disabled.
    Fatal { vector: u8, error_code: Option<u64> },
    /// A hardware interrupt on `irq`: run its device handler, then perform `eoi` in order.
    Device { irq: u8, eoi: Vec<PortWrite> },
}

/// The boot-owned interrupt context: gate table, controller pair, keyboard/mouse controller
/// and the dispatcher's state.
#[derive(Debug)]
pub struct InterruptCore {
    pub idt: Idt,
    pub pics: PicPair,
    pub ps2: Ps2Controller,
    pub state: SystemState,
    pub interrupts_enabled: bool,
}

/// The options every bound handler gets: present, interrupts disabled while it runs.
pub open spec fn handler_options() -> Seq<IdtEntryOption> {
    seq![IdtEntryOption::Present, IdtEntryOption::DisableInterrupts]
}

/// The relation between the context before (`o`) and after (`f`) dispatching `vector`, and
/// the decision `r`.
pub open spec fn dispatch_post(
    o: InterruptCore,
    f: InterruptCore,
    vector: u8,
    error_code: Option<u64>,
    r: Dispatch,
) -> bool {
    if o.state == SystemState::Halted {
        r is Ignored && f == o
    } else if vector < EXCEPTION_VECTORS {
        &&& r == (Dispatch::Fatal { vector, error_code })
        &&& f.state == SystemState::Halted
        &&& !f.interrupts_enabled
        &&& f.idt == o.idt
        &&& f.pics == o.pics
    } else if opt_present(o.idt@[vector as int].options_spec()) && o.pics.irq_spec(
        vector as int,
    ) is Some {
        &&& r matches Dispatch::Device { irq, eoi } && irq == o.pics.irq_spec(
            vector as int,
        ).unwrap() && eoi@ == eoi_writes(irq >= 8)
        &&& f == o
    } else {
        r is Ignored && f == o
    }
}

/// The name of each CPU exception vector.
pub open spec fn exception_name_spec(vector: u8) -> Seq<char> {
    if vector == 0 {
        "divide by zero"@
    } else if vector == 1 {
        "debug"@
    } else if vector == 2 {
        "non-maskable interrupt"@
    } else if vector == 3 {
        "breakpoint"@
    } else if vector == 4 {
        "overflow"@
    } else if vector == 5 {
        "bound range exceeded"@
    } else if vector == 6 {
        "invalid opcode"@
    } else if vector == 7 {
        "device not available"@
    } else if vector == 8 {
        "double fault"@
    } else if vector == 10 {
        "invalid TSS"@
    } else if vector == 11 {
        "segment not present"@
    } else if vector == 12 {
        "stack-segment fault"@
    } else if vector == 13 {
        "general protection fault"@
    } else if vector == 14 {
        "page fault"@
    } else if vector == 16 {
        "x87 floating-point exception"@
    } else if vector == 17 {
        "alignment check"@
    } else if vector == 18 {
        "machine check"@
    } else if vector == 19 {
        "SIMD floating-point exception"@
    } else if vector == 20 {
        "virtualization exception"@
    } else if vector == 30 {
        "security exception"@
    } else {
        "reserved"@
    }
}

/// The exception vectors for which the CPU pushes an error code.
pub open spec fn has_error_code_spec(vector: u8) -> bool {
    vector == 8 || (10 <= vector <= 14) || vector == 17 || vector == 30
}

/// The name of CPU exception `vector`, for the fatal report.
pub fn exception_name(vector: u8) -> (r: &'static str)
    ensures
        r@ == exception_name_spec(vector),
{
    match vector {
        0 => "divide by zero",
        1 => "debug",
        2 => "non-maskable interrupt",
        3 => "breakpoint",
        4 => "overflow",
        5 => "bound range exceeded",
        6 => "invalid opcode",
        7 => "device not available",
        8 => "double fault",
        10 => "invalid TSS",
        11 => "segment not present",
        12 => "stack-segment fault",
        13 => "general protection fault",
        14 => "page fault",
        16 => "x87 floating-point exception",
        17 => "alignment check",
        18 => "machine check",
        19 => "SIMD floating-point exception",
        20 => "virtualization exception",
        30 => "security exception",
        _ => "reserved",
    }
}

/// Whether the CPU pushes an error code for exception `vector`.
pub fn has_error_code(vector: u8) -> (r: bool)
    ensures
        r == has_error_code_spec(vector),
{
    vector == 8 || (10 <= vector && vector <= 14) || vector == 17 || vector == 30
}

impl InterruptCore {
    pub open spec fn wf(&self) -> bool {
        &&& self.idt.wf()
        &&& self.pics.wf()
        &&& self.state == SystemState::Halted ==> !self.interrupts_enabled
    }

    /// A fresh context: no gate present, controllers not set up, interrupts off, running.
    pub fn new() -> (r: InterruptCore)
        ensures
            r.wf(),
            r.state == SystemState::Running,
            !r.interrupts_enabled,
            r.pics.state == PicState::Uninitialized,
            r.ps2.status_port == PS2_STATUS,
            r.ps2.command_port == PS2_COMMAND,
            r.ps2.data_port == PS2_DATA,
            forall|v: int| 0 <= v < IDT_ENTRY_COUNT ==> !opt_present(#[trigger] r.idt@[v].options_spec()),
    {
        let idt = Idt::new();
        assert(0x0e00u16 & 0x8000u16 == 0) by (bit_vector);
        InterruptCore {
            idt,
            pics: PicPair::new(),
            ps2: Ps2Controller::new(),
            state: SystemState::Running,
            interrupts_enabled: false,
        }
    }

    /// Binds the handler at address `target` (code segment `selector`) to `vector`: the entry
    /// becomes present, with interrupts disabled while the handler runs. Fails, changing
    /// nothing, when `vector` is not below 256.
    pub fn bind_handler(&mut self, vector: usize, target: u64, selector: u16) -> (r: Result<
        (),
        IdtError,
    >)
        requires
            old(self).wf(),
        ensures
            final(self).wf(),
            final(self).state == old(self).state,
            final(self).interrupts_enabled == old(self).interrupts_enabled,
            final(self).pics == old(self).pics,
            r is Err <==> vector >= IDT_ENTRY_COUNT,
            r is Err ==> final(self).idt@ == old(self).idt@,
            r is Ok ==> final(self).idt@ == old(self).idt@.update(
                vector as int,
                final(self).idt@[vector as int],
            ),
            r is Ok ==> final(self).idt@[vector as int].target_spec() == target,
            r is Ok ==> final(self).idt@[vector as int].selector_spec() == selector,
            r is Ok ==> final(self).idt@[vector as int].options_spec() == apply_options(
                0x0e00u16,
                handler_options(),
            ),
            r is Ok ==> opt_present(final(self).idt@[vector as int].options_spec()),
    {
        let opts = [IdtEntryOption::Present, IdtEntryOption::DisableInterrupts];
        assert(opts@ =~= handler_options());
        let r = self.idt.bind(vector, target, selector, &opts);
        proof {
            let hs = handler_options();
            assert(hs.drop_last().drop_last() =~= Seq::<IdtEntryOption>::empty());
            assert(hs.drop_last() =~= seq![IdtEntryOption::Present]);
            assert(hs.drop_last().last() == IdtEntryOption::Present);
            assert(hs.last() == IdtEntryOption::DisableInterrupts);
            assert(apply_options(0x0e00u16, hs.drop_last().drop_last()) == 0x0e00u16);
            assert(apply_options(0x0e00u16, hs.drop_last()) == 0x0e00u16 | 0x8000u16);
            assert(apply_options(0x0e00u16, hs) == (0x0e00u16 | 0x8000u16) & !0x0100u16);
            assert(((0x0e00u16 | 0x8000u16) & !0x0100u16) & 0x8000u16 != 0) by (bit_vector);
        }
        r
    }

    /// Turns interrupts on, unless the system has halted.
    pub fn enable_interrupts(&mut self)
        requires
            old(self).wf(),
        ensures
            final(self).wf(),
            final(self).interrupts_enabled == (old(self).state == SystemState::Running),
            final(self).state == old(self).state,
            final(self).idt == old(self).idt,
            final(self).pics == old(self).pics,
    {
        if self.state == SystemState::Running {
            self.interrupts_enabled = true;
        }
    }

    /// Decides what happens on `vector`. Once halted, nothing runs and nothing changes. A CPU
    /// exception halts the system with interrupts disabled and is reported. A hardware
    /// interrupt whose gate is present and whose vector a controller raises runs its device
    /// handler followed by the acknowledgment, slave first when the slave routed it. Anything
    /// else is ignored.
    pub fn dispatch(&mut self, vector: u8, error_code: Option<u64>) -> (r: Dispatch)
        requires
            old(self).wf(),
        ensures
            final(self).wf(),
            dispatch_post(*old(self), *final(self), vector, error_code, r),
    {
        if self.state == SystemState::Halted {
            return Dispatch::Ignored;
        }
        if vector < EXCEPTION_VECTORS {
            self.state = SystemState::Halted;
            self.interrupts_enabled = false;
            return Dispatch::Fatal { vector, error_code };
        }
        let present = match self.idt.entry(vector as usize) {
            Some(e) => e.is_present(),
            None => false,
        };
        if !present {
            return Dispatch::Ignored;
        }
        match self.pics.acknowledge(vector) {
            Some(eoi) => {
                let irq = self.pics.irq_of_vector(vector);
                match irq {
                    Some(l) => Dispatch::Device { irq: l, eoi },
                    None => Dispatch::Ignored,
                }
            },
            None => Dispatch::Ignored,
        }
    }

    /// Whether the system has halted.
    pub fn is_halted(&self) -> (r: bool)
        ensures
            r == (self.state == SystemState::Halted),
    {
        self.state == SystemState::Halted
    }
}

/// Sets up the controllers of the context with the conventional offsets (master vectors
/// 32..40, slave 40..48); returns the port writes, in order. Loading the table and enabling
/// interrupts follow.
pub fn register(core: &mut InterruptCore) -> (r: Vec<PortWrite>)
    requires
        old(core).wf(),
    ensures
        final(core).wf(),
        r@ == crate::pic::remap_writes(crate::pic::MASTER_OFFSET),
        final(core).pics.state == PicState::Ready,
        final(core).pics.master.offset == 0x20,
        final(core).pics.slave.offset == 0x28,
        final(core).idt == old(core).idt,
        final(core).state == old(core).state,
        final(core).interrupts_enabled == old(core).interrupts_enabled,
{
    enable_pics_and_remap_irqs(&mut core.pics)
}

/// A CPU exception is terminal: whatever the context before, dispatching an exception vector
/// leaves it halted with interrupts disabled, and from then on every dispatch runs no handler
/// and changes nothing.
pub proof fn lemma_exception_halts(
    before: InterruptCore,
    after: InterruptCore,
    vector: u8,
    error_code: Option<u64>,
    r: Dispatch,
    later: InterruptCore,
    next_vector: u8,
    next_error_code: Option<u64>,
    next_r: Dispatch,
)
    requires
        before.wf(),
        vector < EXCEPTION_VECTORS,
        dispatch_post(before, after, vector, error_code, r),
        dispatch_post(after, later, next_vector, next_error_code, next_r),
    ensures
        after.state == SystemState::Halted,
        !after.interrupts_enabled,
        before.state == SystemState::Running ==> r == (Dispatch::Fatal { vector, error_code }),
        next_r is Ignored,
        later == after,
{
}

} // verus!
