use bit_field::BitField;
use vstd::prelude::*;

verus! {

/// Number of vectors in the interrupt descriptor table.
pub const IDT_ENTRY_COUNT: usize = 256;

/// Size in bytes of one gate descriptor as the CPU reads it.
pub const IDT_ENTRY_SIZE: usize = 16;

/// One gate of the interrupt descriptor table, field for field in the order the CPU reads it.
#[derive(Clone, Copy, Debug)]
pub struct IdtEntry {
    ptr_low: u16,
    gdt_selector: u16,
    options: u16,
    ptr_mid: u16,
    ptr_high: u32,
    reserved: u32,
}

/// One change to the options word of a gate.
#[derive(Clone, Copy, Debug)]
pub enum IdtEntryOption {
    Present,
    NotPresent,
    DisableInterrupts,
    EnableInterrupts,
    User,
    Supervisor,
    StackIndex(u16),
}

/// Errors of table configuration.
#[derive(Clone, Copy, Debug, PartialEq, Eq, Structural)]
pub enum IdtError {
    InvalidVector,
}

/// The full gate table, indexed by vector number.
#[derive(Debug)]
pub struct Idt {
    entries: Vec<IdtEntry>,
}

/// What the table-load instruction consumes: the table's last byte offset and its address.
#[derive(Clone, Copy, Debug)]
pub struct IdtDescriptor {
    pub limit: u16,
    pub base: u64,
}

// ---------------------------------------------------------------------------
// The options word, decoded
// ---------------------------------------------------------------------------

/// Bit 15: the entry may be used.
pub open spec fn opt_present(w: u16) -> bool {
    w & 0x8000u16 != 0
}

/// Bit 8: set for a trap gate (interrupts stay enabled), clear for an interrupt gate.
pub open spec fn opt_interrupts_enabled(w: u16) -> bool {
    w & 0x0100u16 != 0
}

/// Bits 13..15: the privilege level allowed to invoke the entry.
pub open spec fn opt_privilege(w: u16) -> u16 {
    (w >> 13u16) & 3u16
}

/// Bits 0..3: the interrupt stack table index.
pub open spec fn opt_stack_index(w: u16) -> u16 {
    w & 7u16
}

/// Bits 9..12: fixed to 0b111 in a valid gate.
pub open spec fn opt_reserved(w: u16) -> u16 {
    (w >> 9u16) & 7u16
}

/// The fixed parts of an options word: reserved bits 0b111, bits 3..8 and 12 clear.
pub open spec fn options_wf(w: u16) -> bool {
    w & 0x1ef8u16 == 0x0e00u16
}

/// An option that fits its field.
pub open spec fn option_valid(o: IdtEntryOption) -> bool {
    match o {
        IdtEntryOption::StackIndex(i) => i < 8,
        _ => true,
    }
}

/// The options word after applying one option.
pub open spec fn apply_option(w: u16, o: IdtEntryOption) -> u16 {
    match o {
        IdtEntryOption::Present => w | 0x8000u16,
        IdtEntryOption::NotPresent => w & !0x8000u16,
        IdtEntryOption::DisableInterrupts => w & !0x0100u16,
        IdtEntryOption::EnableInterrupts => w | 0x0100u16,
        IdtEntryOption::User => w | 0x6000u16,
        IdtEntryOption::Supervisor => w & !0x6000u16,
        IdtEntryOption::StackIndex(i) => (w & !7u16) | i,
    }
}

/// The options word after applying a sequence of options in order.
pub open spec fn apply_options(w: u16, os: Seq<IdtEntryOption>) -> u16
    decreases os.len(),
{
    if os.len() == 0 {
        w
    } else {
        apply_option(apply_options(w, os.drop_last()), os.last())
    }
}

/// The value of the present flag that the last option touching it set, or `d` if none did.
pub open spec fn last_present(os: Seq<IdtEntryOption>, d: bool) -> bool
    decreases os.len(),
{
    if os.len() == 0 {
        d
    } else {
        match os.last() {
            IdtEntryOption::Present => true,
            IdtEntryOption::NotPresent => false,
            _ => last_present(os.drop_last(), d),
        }
    }
}

/// The interrupt-enable flag that the last option touching it set, or `d`.
pub open spec fn last_interrupts_enabled(os: Seq<IdtEntryOption>, d: bool) -> bool
    decreases os.len(),
{
    if os.len() == 0 {
        d
    } else {
        match os.last() {
            IdtEntryOption::EnableInterrupts => true,
            IdtEntryOption::DisableInterrupts => false,
            _ => last_interrupts_enabled(os.drop_last(), d),
        }
    }
}

/// The privilege level that the last option touching it set (user 3, supervisor 0), or `d`.
pub open spec fn last_privilege(os: Seq<IdtEntryOption>, d: u16) -> u16
    decreases os.len(),
{
    if os.len() == 0 {
        d
    } else {
        match os.last() {
            IdtEntryOption::User => 3,
            IdtEntryOption::Supervisor => 0,
            _ => last_privilege(os.drop_last(), d),
        }
    }
}

/// The stack index that the last option touching it set, or `d`.
pub open spec fn last_stack_index(os: Seq<IdtEntryOption>, d: u16) -> u16
    decreases os.len(),
{
    if os.len() == 0 {
        d
    } else {
        match os.last() {
            IdtEntryOption::StackIndex(i) => i,
            _ => last_stack_index(os.drop_last(), d),
        }
    }
}

/// One option changes its own field only, and keeps the word well formed.
pub proof fn lemma_apply_option(w: u16, o: IdtEntryOption)
    requires
        options_wf(w),
        option_valid(o),
    ensures
        options_wf(apply_option(w, o)),
        opt_reserved(apply_option(w, o)) == 7,
        opt_present(apply_option(w, o)) == match o {
            IdtEntryOption::Present => true,
            IdtEntryOption::NotPresent => false,
            _ => opt_present(w),
        },
        opt_interrupts_enabled(apply_option(w, o)) == match o {
            IdtEntryOption::EnableInterrupts => true,
            IdtEntryOption::DisableInterrupts => false,
            _ => opt_interrupts_enabled(w),
        },
        opt_privilege(apply_option(w, o)) == match o {
            IdtEntryOption::User => 3u16,
            IdtEntryOption::Supervisor => 0u16,
            _ => opt_privilege(w),
        },
        opt_stack_index(apply_option(w, o)) == match o {
            IdtEntryOption::StackIndex(i) => i,
            _ => opt_stack_index(w),
        },
{
    assert(w & 0x1ef8u16 == 0x0e00u16 ==> (w >> 9u16) & 7u16 == 7u16) by (bit_vector);
    match o {
        IdtEntryOption::Present => {
            let r = w | 0x8000u16;
            assert(w & 0x1ef8u16 == 0x0e00u16 ==> r & 0x1ef8u16 == 0x0e00u16 && (r >> 9u16)
                & 7u16 == 7u16 && r & 0x8000u16 != 0 && (r & 0x0100u16 != 0) == (w & 0x0100u16
                != 0) && (r >> 13u16) & 3u16 == (w >> 13u16) & 3u16 && r & 7u16 == w & 7u16)
                by (bit_vector)
                requires
                    r == w | 0x8000u16,
            ;
        },
        IdtEntryOption::NotPresent => {
            let r = w & !0x8000u16;
            assert(w & 0x1ef8u16 == 0x0e00u16 ==> r & 0x1ef8u16 == 0x0e00u16 && (r >> 9u16)
                & 7u16 == 7u16 && r & 0x8000u16 == 0 && (r & 0x0100u16 != 0) == (w & 0x0100u16
                != 0) && (r >> 13u16) & 3u16 == (w >> 13u16) & 3u16 && r & 7u16 == w & 7u16)
                by (bit_vector)
                requires
                    r == w & !0x8000u16,
            ;
        },
        IdtEntryOption::DisableInterrupts => {
            let r = w & !0x0100u16;
            assert(w & 0x1ef8u16 == 0x0e00u16 ==> r & 0x1ef8u16 == 0x0e00u16 && (r >> 9u16)
                & 7u16 == 7u16 && (r & 0x8000u16 != 0) == (w & 0x8000u16 != 0) && r & 0x0100u16
                == 0 && (r >> 13u16) & 3u16 == (w >> 13u16) & 3u16 && r & 7u16 == w & 7u16)
                by (bit_vector)
                requires
                    r == w & !0x0100u16,
            ;
        },
        IdtEntryOption::EnableInterrupts => {
            let r = w | 0x0100u16;
            assert(w & 0x1ef8u16 == 0x0e00u16 ==> r & 0x1ef8u16 == 0x0e00u16 && (r >> 9u16)
                & 7u16 == 7u16 && (r & 0x8000u16 != 0) == (w & 0x8000u16 != 0) && r & 0x0100u16
                != 0 && (r >> 13u16) & 3u16 == (w >> 13u16) & 3u16 && r & 7u16 == w & 7u16)
                by (bit_vector)
                requires
                    r == w | 0x0100u16,
            ;
        },
        IdtEntryOption::User => {
            let r = w | 0x6000u16;
            assert(w & 0x1ef8u16 == 0x0e00u16 ==> r & 0x1ef8u16 == 0x0e00u16 && (r >> 9u16)
                & 7u16 == 7u16 && (r & 0x8000u16 != 0) == (w & 0x8000u16 != 0) && (r & 0x0100u16
                != 0) == (w & 0x0100u16 != 0) && (r >> 13u16) & 3u16 == 3u16 && r & 7u16 == w
                & 7u16) by (bit_vector)
                requires
                    r == w | 0x6000u16,
            ;
        },
        IdtEntryOption::Supervisor => {
            let r = w & !0x6000u16;
            assert(w & 0x1ef8u16 == 0x0e00u16 ==> r & 0x1ef8u16 == 0x0e00u16 && (r >> 9u16)
                & 7u16 == 7u16 && (r & 0x8000u16 != 0) == (w & 0x8000u16 != 0) && (r & 0x0100u16
                != 0) == (w & 0x0100u16 != 0) && (r >> 13u16) & 3u16 == 0u16 && r & 7u16 == w
                & 7u16) by (bit_vector)
                requires
                    r == w & !0x6000u16,
            ;
        },
        IdtEntryOption::StackIndex(i) => {
            let r = (w & !7u16) | i;
            assert(w & 0x1ef8u16 == 0x0e00u16 && i < 8u16 ==> r & 0x1ef8u16 == 0x0e00u16 && (r
                >> 9u16) & 7u16 == 7u16 && (r & 0x8000u16 != 0) == (w & 0x8000u16 != 0) && (r
                & 0x0100u16 != 0) == (w & 0x0100u16 != 0) && (r >> 13u16) & 3u16 == (w >> 13u16)
                & 3u16 && r & 7u16 == i) by (bit_vector)
                requires
                    r == (w & !7u16) | i,
            ;
        },
    }
}

/// Options are independent fields: after any sequence of options applied to a well-formed
/// word, each field holds the value that the last option touching it set (or its value
/// before, if none did), and the reserved bits are still 0b111.
pub proof fn lemma_options_decode(w: u16, os: Seq<IdtEntryOption>)
    requires
        options_wf(w),
        forall|k: int| 0 <= k < os.len() ==> option_valid(#[trigger] os[k]),
    ensures
        options_wf(apply_options(w, os)),
        opt_reserved(apply_options(w, os)) == 7,
        opt_present(apply_options(w, os)) == last_present(os, opt_present(w)),
        opt_interrupts_enabled(apply_options(w, os)) == last_interrupts_enabled(
            os,
            opt_interrupts_enabled(w),
        ),
        opt_privilege(apply_options(w, os)) == last_privilege(os, opt_privilege(w)),
        opt_stack_index(apply_options(w, os)) == last_stack_index(os, opt_stack_index(w)),
    decreases os.len(),
{
    if os.len() > 0 {
        let init = os.drop_last();
        assert forall|k: int| 0 <= k < init.len() implies option_valid(#[trigger] init[k]) by {
            assert(init[k] == os[k]);
        }
        lemma_options_decode(w, init);
        assert(option_valid(os[os.len() - 1]));
        lemma_apply_option(apply_options(w, init), os.last());
    } else {
        assert(w & 0x1ef8u16 == 0x0e00u16 ==> (w >> 9u16) & 7u16 == 7u16) by (bit_vector);
    }
}

// ---------------------------------------------------------------------------
// Calls into bit_field
// ---------------------------------------------------------------------------

/// Relies on `BitField::set_bit` of bit_field for `u16`: sets the bit `bit` when `value`
/// holds and clears it otherwise; panics only when `bit` is out of range.
#[verifier::external_body]
fn set_bit_u16(word: u16, bit: usize, value: bool) -> (r: u16)
    requires
        bit < 16,
    ensures
        r == (if value {
            word | (1u16 << (bit as u16))
        } else {
            word & !(1u16 << (bit as u16))
        }),
{
    let mut w = word;
    w.set_bit(bit, value);
    w
}

/// The bits `lo..hi` of a `u16`.
pub open spec fn field_mask(lo: u16, hi: u16) -> u16 {
    ((0xffffu16 >> ((16 - (hi - lo)) as u16)) << lo)
}

/// Relies on `BitField::set_bits` of bit_field for `u16`: replaces bits `lo..hi` by
/// `value`; panics when the range is empty or out of bounds or `value` does not fit it.
#[verifier::external_body]
fn set_bits_u16(word: u16, lo: usize, hi: usize, value: u16) -> (r: u16)
    requires
        lo < hi <= 16,
        value >> ((hi - lo) as u16) == 0 || hi - lo == 16,
    ensures
        r == (word & !field_mask(lo as u16, hi as u16)) | (value << (lo as u16)),
{
    let mut w = word;
    w.set_bits(lo..hi, value);
    w
}

/// Byte `k` of `x`, little-endian.
fn le_byte(x: u64, k: u64) -> (r: u8)
    requires
        k < 8,
    ensures
        r == byte_of(x, k),
{
    ((x >> (8 * k)) & 0xff) as u8
}

// ---------------------------------------------------------------------------
// Entries
// ---------------------------------------------------------------------------

impl IdtEntry {
    pub closed spec fn options_spec(&self) -> u16 {
        self.options
    }

    pub closed spec fn selector_spec(&self) -> u16 {
        self.gdt_selector
    }

    /// The handler address that the three address fields hold together.
    pub closed spec fn target_spec(&self) -> u64 {
        (self.ptr_low as u64) | ((self.ptr_mid as u64) << 16u64) | ((self.ptr_high as u64)
            << 32u64)
    }

    pub closed spec fn reserved_spec(&self) -> u32 {
        self.reserved
    }

    pub closed spec fn wf(&self) -> bool {
        options_wf(self.options) && self.reserved == 0
    }

    /// A gate that is not present, with the reserved bits set and all else zero.
    pub fn new() -> (r: IdtEntry)
        ensures
            r.wf(),
            r.options_spec() == 0x0e00u16,
            !opt_present(r.options_spec()),
            r.target_spec() == 0,
            r.selector_spec() == 0,
    {
        assert(7u16 >> 3u16 == 0) by (bit_vector);
        let opts = set_bits_u16(0, 9, 12, 0b111);
        assert(opts == 0x0e00u16) by (bit_vector)
            requires
                opts == (0u16 & !field_mask(9, 12)) | (7u16 << 9u16),
        ;
        let r = IdtEntry {
            ptr_low: 0,
            gdt_selector: 0,
            options: opts,
            ptr_mid: 0,
            ptr_high: 0,
            reserved: 0,
        };
        assert((0u16 as u64) | ((0u16 as u64) << 16u64) | ((0u32 as u64) << 32u64) == 0u64)
            by (bit_vector);
        assert(0x0e00u16 & 0x1ef8u16 == 0x0e00u16 && 0x0e00u16 & 0x8000u16 == 0) by (bit_vector);
        r
    }

    /// Applies one option to the options word; no other field changes.
    pub fn set_option(&mut self, option: IdtEntryOption)
        requires
            option_valid(option),
        ensures
            final(self).options_spec() == apply_option(old(self).options_spec(), option),
            final(self).target_spec() == old(self).target_spec(),
            final(self).selector_spec() == old(self).selector_spec(),
            final(self).reserved_spec() == old(self).reserved_spec(),
    {
        let w = self.options;
        assert(3u16 >> 2u16 == 0 && 0u16 >> 2u16 == 0) by (bit_vector);
        let r = match option {
            IdtEntryOption::Present => set_bit_u16(w, 15, true),
            IdtEntryOption::NotPresent => set_bit_u16(w, 15, false),
            IdtEntryOption::DisableInterrupts => set_bit_u16(w, 8, false),
            IdtEntryOption::EnableInterrupts => set_bit_u16(w, 8, true),
            IdtEntryOption::User => set_bits_u16(w, 13, 15, 3),
            IdtEntryOption::Supervisor => set_bits_u16(w, 13, 15, 0),
            IdtEntryOption::StackIndex(i) => {
                assert(i < 8u16 ==> i >> 3u16 == 0) by (bit_vector);
                set_bits_u16(w, 0, 3, i)
            },
        };
        proof {
            match option {
                IdtEntryOption::Present => {
                    assert(w | (1u16 << 15u16) == w | 0x8000u16) by (bit_vector);
                },
                IdtEntryOption::NotPresent => {
                    assert(w & !(1u16 << 15u16) == w & !0x8000u16) by (bit_vector);
                },
                IdtEntryOption::DisableInterrupts => {
                    assert(w & !(1u16 << 8u16) == w & !0x0100u16) by (bit_vector);
                },
                IdtEntryOption::EnableInterrupts => {
                    assert(w | (1u16 << 8u16) == w | 0x0100u16) by (bit_vector);
                },
                IdtEntryOption::User => {
                    assert((w & !field_mask(13, 15)) | (3u16 << 13u16) == w | 0x6000u16)
                        by (bit_vector);
                },
                IdtEntryOption::Supervisor => {
                    assert((w & !field_mask(13, 15)) | (0u16 << 13u16) == w & !0x6000u16)
                        by (bit_vector);
                },
                IdtEntryOption::StackIndex(i) => {
                    assert((w & !field_mask(0, 3)) | (i << 0u16) == (w & !7u16) | i)
                        by (bit_vector);
                },
            }
        }
        self.options = r;
    }

    pub fn options(&self) -> (r: u16)
        ensures
            r == self.options_spec(),
    {
        self.options
    }

    pub fn selector(&self) -> (r: u16)
        ensures
            r == self.selector_spec(),
    {
        self.gdt_selector
    }

    pub fn target(&self) -> (r: u64)
        ensures
            r == self.target_spec(),
    {
        (self.ptr_low as u64) | ((self.ptr_mid as u64) << 16u64) | ((self.ptr_high as u64)
            << 32u64)
    }

    /// The sixteen bytes of this gate in the CPU's format.
    pub fn to_bytes(&self) -> (r: Vec<u8>)
        requires
            self.wf(),
        ensures
            r@ == entry_bytes(*self),
    {
        let t = self.target();
        let s = self.gdt_selector;
        let o = self.options;
        let r = vec![
            le_byte(t, 0), le_byte(t, 1), s as u8, (s >> 8u16) as u8,
            o as u8, (o >> 8u16) as u8, le_byte(t, 2), le_byte(t, 3),
            le_byte(t, 4), le_byte(t, 5), le_byte(t, 6), le_byte(t, 7),
            0u8, 0u8, 0u8, 0u8,
        ];
        proof {
            let s64 = s as u64;
            let o64 = o as u64;
            assert(s as u8 == byte_of(s64, 0) && (s >> 8u16) as u8 == byte_of(s64, 1))
                by (bit_vector)
                requires
                    s64 == s as u64,
            ;
            assert(o as u8 == byte_of(o64, 0) && (o >> 8u16) as u8 == byte_of(o64, 1))
                by (bit_vector)
                requires
                    o64 == o as u64,
            ;
            assert(r@ =~= entry_bytes(*self));
        }
        r
    }

    pub fn is_present(&self) -> (r: bool)
        ensures
            r == opt_present(self.options_spec()),
    {
        self.options & 0x8000 != 0
    }
}

/// Byte `k` (little-endian) of a 64-bit value.
pub open spec fn byte_of(x: u64, k: u64) -> u8 {
    ((x >> (8 * k)) & 0xffu64) as u8
}

/// The sixteen bytes of a gate as the CPU reads them: address bits 0..16, selector,
/// options word, address bits 16..64, then four zero bytes.
pub open spec fn entry_bytes(e: IdtEntry) -> Seq<u8> {
    let t = e.target_spec();
    let s = e.selector_spec() as u64;
    let o = e.options_spec() as u64;
    seq![
        byte_of(t, 0), byte_of(t, 1), byte_of(s, 0), byte_of(s, 1),
        byte_of(o, 0), byte_of(o, 1), byte_of(t, 2), byte_of(t, 3),
        byte_of(t, 4), byte_of(t, 5), byte_of(t, 6), byte_of(t, 7),
        0u8, 0u8, 0u8, 0u8,
    ]
}

/// Byte `k` of the entry for vector `v` within the encoded table `b`.
pub open spec fn table_byte(b: Seq<u8>, v: int, k: int) -> u8 {
    b[16 * v + k]
}

impl Default for IdtEntry {
    /// A present interrupt gate (interrupts disabled while its handler runs), address and
    /// selector zero.
    fn default() -> (r: IdtEntry)
        ensures
            r.wf(),
            r.options_spec() == 0x8e00u16,
            opt_present(r.options_spec()),
            !opt_interrupts_enabled(r.options_spec()),
            r.target_spec() == 0,
            r.selector_spec() == 0,
    {
        let mut entry = IdtEntry::new();
        entry.set_option(IdtEntryOption::Present);
        entry.set_option(IdtEntryOption::DisableInterrupts);
        assert(((0x0e00u16 | 0x8000u16) & !0x0100u16) == 0x8e00u16 && 0x8e00u16 & 0x1ef8u16
            == 0x0e00u16 && 0x8e00u16 & 0x8000u16 != 0 && 0x8e00u16 & 0x0100u16 == 0)
            by (bit_vector);
        entry
    }
}

impl View for Idt {
    type V = Seq<IdtEntry>;

    closed spec fn view(&self) -> Seq<IdtEntry> {
        self.entries@
    }
}

impl Idt {
    pub open spec fn wf(&self) -> bool {
        &&& self@.len() == IDT_ENTRY_COUNT
        &&& forall|v: int| 0 <= v < self@.len() ==> (#[trigger] self@[v]).wf()
    }

    /// A table of 256 gates, none of them present.
    pub fn new() -> (r: Idt)
        ensures
            r.wf(),
            r@.len() == IDT_ENTRY_COUNT,
            forall|v: int|
                0 <= v < IDT_ENTRY_COUNT ==> (#[trigger] r@[v]).options_spec() == 0x0e00u16
                    && r@[v].target_spec() == 0 && r@[v].selector_spec() == 0,
    {
        let e = IdtEntry::new();
        let mut entries: Vec<IdtEntry> = Vec::new();
        while entries.len() < IDT_ENTRY_COUNT
            invariant
                entries@.len() <= IDT_ENTRY_COUNT,
                forall|v: int| 0 <= v < entries@.len() ==> #[trigger] entries@[v] == e,
                e.wf(),
                e.options_spec() == 0x0e00u16,
                e.target_spec() == 0,
                e.selector_spec() == 0,
            decreases IDT_ENTRY_COUNT - entries@.len(),
        {
            entries.push(e);
        }
        Idt { entries }
    }

    /// Writes the entry for `vector`: handler address, code-segment selector, and the options
    /// applied in order to a fresh not-present gate. Fails, changing nothing, when `vector`
    /// is not below 256.
    pub fn bind(
        &mut self,
        vector: usize,
        target: u64,
        selector: u16,
        options: &[IdtEntryOption],
    ) -> (r: Result<(), IdtError>)
        requires
            old(self).wf(),
            forall|k: int| 0 <= k < options@.len() ==> option_valid(#[trigger] options@[k]),
        ensures
            final(self).wf(),
            r is Err <==> vector >= IDT_ENTRY_COUNT,
            r is Err ==> r == Err::<(), IdtError>(IdtError::InvalidVector),
            r is Err ==> final(self)@ == old(self)@,
            r is Ok ==> final(self)@ == old(self)@.update(vector as int, final(self)@[vector as int]),
            r is Ok ==> final(self)@[vector as int].target_spec() == target,
            r is Ok ==> final(self)@[vector as int].selector_spec() == selector,
            r is Ok ==> final(self)@[vector as int].options_spec() == apply_options(
                0x0e00u16,
                options@,
            ),
    {
        if vector >= IDT_ENTRY_COUNT {
            return Err(IdtError::InvalidVector);
        }
        let mut e = IdtEntry::new();
        let low = target as u16;
        let mid = (target >> 16u64) as u16;
        let high = (target >> 32u64) as u32;
        assert((low as u64) | ((mid as u64) << 16u64) | ((high as u64) << 32u64) == target)
            by (bit_vector)
            requires
                low == target as u16,
                mid == (target >> 16u64) as u16,
                high == (target >> 32u64) as u32,
        ;
        e.ptr_low = low;
        e.ptr_mid = mid;
        e.ptr_high = high;
        e.gdt_selector = selector;
        let mut i: usize = 0;
        while i < options.len()
            invariant
                i <= options@.len(),
                forall|k: int| 0 <= k < options@.len() ==> option_valid(#[trigger] options@[k]),
                e.target_spec() == target,
                e.selector_spec() == selector,
                e.reserved_spec() == 0,
                e.options_spec() == apply_options(0x0e00u16, options@.subrange(0, i as int)),
                options_wf(e.options_spec()),
            decreases options@.len() - i,
        {
            let o = options[i];
            proof {
                lemma_apply_option(e.options_spec(), o);
                assert(options@.subrange(0, i + 1).drop_last() =~= options@.subrange(0, i as int));
            }
            e.set_option(o);
            i = i + 1;
        }
        assert(options@.subrange(0, options@.len() as int) =~= options@);
        self.entries.set(vector, e);
        Ok(())
    }

    /// The entry for `vector`, if the table has one.
    pub fn entry(&self, vector: usize) -> (r: Option<IdtEntry>)
        ensures
            r == (if vector < self@.len() {
                Some(self@[vector as int])
            } else {
                None::<IdtEntry>
            }),
    {
        if vector < self.entries.len() {
            Some(self.entries[vector])
        } else {
            None
        }
    }

    /// The table in the CPU's format: the sixteen bytes of each gate, by vector.
    pub fn encode(&self) -> (r: Vec<u8>)
        requires
            self.wf(),
        ensures
            r@.len() == IDT_ENTRY_SIZE * IDT_ENTRY_COUNT,
            forall|v: int, k: int|
                0 <= v < IDT_ENTRY_COUNT && 0 <= k < IDT_ENTRY_SIZE ==> #[trigger] table_byte(
                    r@,
                    v,
                    k,
                ) == entry_bytes(self@[v])[k],
    {
        let mut out: Vec<u8> = Vec::new();
        let mut v: usize = 0;
        while v < self.entries.len()
            invariant
                self.wf(),
                v <= IDT_ENTRY_COUNT,
                out@.len() == IDT_ENTRY_SIZE * v,
                forall|w: int, k: int|
                    0 <= w < v && 0 <= k < IDT_ENTRY_SIZE ==> #[trigger] table_byte(out@, w, k)
                        == entry_bytes(self@[w])[k],
            decreases IDT_ENTRY_COUNT - v,
        {
            let bytes = self.entries[v].to_bytes();
            let ghost before = out@;
            let mut k: usize = 0;
            while k < IDT_ENTRY_SIZE
                invariant
                    k <= IDT_ENTRY_SIZE,
                    v < IDT_ENTRY_COUNT,
                    bytes@ == entry_bytes(self@[v as int]),
                    before.len() == IDT_ENTRY_SIZE * v,
                    out@ == before + bytes@.subrange(0, k as int),
                decreases IDT_ENTRY_SIZE - k,
            {
                out.push(bytes[k]);
                k = k + 1;
                assert(out@ =~= before + bytes@.subrange(0, k as int));
            }
            assert forall|w: int, k: int|
                0 <= w < v + 1 && 0 <= k < IDT_ENTRY_SIZE implies #[trigger] table_byte(out@, w, k)
                == entry_bytes(self@[w])[k] by {
                if w < v {
                    assert(16 * w + k < 16 * v) by (nonlinear_arith)
                        requires
                            w < v,
                            k < 16,
                    ;
                    assert(table_byte(before, w, k) == entry_bytes(self@[w])[k]);
                } else {
                    assert(bytes@.subrange(0, 16)[k] == bytes@[k]);
                }
            }
            v = v + 1;
        }
        out
    }
}

impl IdtDescriptor {
    /// The descriptor of a table of 256 gates stored at `base`.
    pub fn new(base: u64) -> (r: IdtDescriptor)
        ensures
            r.limit == IDT_ENTRY_SIZE * IDT_ENTRY_COUNT - 1,
            r.base == base,
    {
        IdtDescriptor { limit: (IDT_ENTRY_SIZE * IDT_ENTRY_COUNT - 1) as u16, base }
    }
}


} // verus!
