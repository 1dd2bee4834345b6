//! The FLAGS register

use vstd::prelude::*;
use crate::ume86::cpu::Generation;
use crate::ume86::lazy::LazyOp;

verus! {

/// x86 FLAGS register representation
#[derive(Debug, Clone, Copy, PartialEq, Eq, Structural)]
pub struct Flags(pub u32);

/// Whether every bit of `mask` is set in `bits`.
pub open spec fn has_bits(bits: u32, mask: u32) -> bool {
    bits & mask == mask
}

/// `bits` with the bits of `mask` set when `v` holds and cleared otherwise.
pub open spec fn with_bits(bits: u32, mask: u32, v: bool) -> u32 {
    if v {
        bits | mask
    } else {
        bits & !mask
    }
}

impl Flags {
    /// Carry flag
    pub const CF: u32 = 0x0000_0001;
    /// Parity flag
    pub const PF: u32 = 0x0000_0004;
    /// Adjust flag
    pub const AF: u32 = 0x0000_0010;
    /// Zero flag
    pub const ZF: u32 = 0x0000_0040;
    /// Sign flag
    pub const SF: u32 = 0x0000_0080;
    /// Trap flag
    pub const TF: u32 = 0x0000_0100;
    /// Interrupt enable flag
    pub const IF: u32 = 0x0000_0200;
    /// Direction flag
    pub const DF: u32 = 0x0000_0400;
    /// Overflow flag
    pub const OF: u32 = 0x0000_0800;
    /// I/O privilege level
    pub const IOPL3: u32 = 0x0000_3000;
    /// Nested task flag
    pub const NT: u32 = 0x0000_4000;
    /// Mode flag (NEC V30)
    pub const MD: u32 = 0x0000_8000;
    /// Resume flag
    pub const RF: u32 = 0x0001_0000;
    /// Virtual 8086 mode flag
    pub const VM: u32 = 0x0002_0000;
    /// Alignment check
    pub const AC: u32 = 0x0004_0000;
    /// Virtual interrupt flag
    pub const VIF: u32 = 0x0008_0000;
    /// Virtual interrupt pending
    pub const VIP: u32 = 0x0010_0000;
    /// Able to use CPUID instruction
    pub const ID: u32 = 0x0020_0000;
    /// All flags cleared (used for initialization)
    pub const ZERO: u32 = 0;
    /// All flags set (used for testing)
    pub const NOT_ZERO: u32 = 0xffff_ffff;

    pub fn from_bits(bits: u32) -> (r: Self)
        ensures
            r.0 == bits,
    {
        Self(bits)
    }

    /// Returns the raw bits of the flags.
    pub fn bits(&self) -> (r: u32)
        ensures
            r == self.0,
    {
        self.0
    }

    /// Whether every flag of `value` is set.
    pub fn contains(&self, value: Self) -> (r: bool)
        ensures
            r == has_bits(self.0, value.0),
    {
        (self.0 & value.0) == value.0
    }
}

impl core::ops::BitAnd<Flags> for Flags {
    type Output = Flags;

    fn bitand(self, rhs: Flags) -> (r: Flags) {
        Flags(self.0 & rhs.0)
    }
}

impl vstd::std_specs::ops::BitAndSpecImpl<Flags> for Flags {
    open spec fn obeys_bitand_spec() -> bool {
        true
    }

    open spec fn bitand_req(self, rhs: Flags) -> bool {
        true
    }

    open spec fn bitand_spec(self, rhs: Flags) -> Flags {
        Flags(self.0 & rhs.0)
    }
}

impl core::ops::BitAndAssign<Flags> for Flags {
    fn bitand_assign(&mut self, rhs: Flags)
        ensures
            final(self).0 == old(self).0 & rhs.0,
    {
        self.0 = self.0 & rhs.0;
    }
}

impl core::ops::BitOr<Flags> for Flags {
    type Output = Flags;

    fn bitor(self, rhs: Flags) -> (r: Flags) {
        Flags(self.0 | rhs.0)
    }
}

impl vstd::std_specs::ops::BitOrSpecImpl<Flags> for Flags {
    open spec fn obeys_bitor_spec() -> bool {
        true
    }

    open spec fn bitor_req(self, rhs: Flags) -> bool {
        true
    }

    open spec fn bitor_spec(self, rhs: Flags) -> Flags {
        Flags(self.0 | rhs.0)
    }
}

impl core::ops::BitOrAssign<Flags> for Flags {
    fn bitor_assign(&mut self, rhs: Flags)
        ensures
            final(self).0 == old(self).0 | rhs.0,
    {
        self.0 = self.0 | rhs.0;
    }
}

impl core::ops::BitXor<Flags> for Flags {
    type Output = Flags;

    fn bitxor(self, rhs: Flags) -> (r: Flags) {
        Flags(self.0 ^ rhs.0)
    }
}

impl vstd::std_specs::ops::BitXorSpecImpl<Flags> for Flags {
    open spec fn obeys_bitxor_spec() -> bool {
        true
    }

    open spec fn bitxor_req(self, rhs: Flags) -> bool {
        true
    }

    open spec fn bitxor_spec(self, rhs: Flags) -> Flags {
        Flags(self.0 ^ rhs.0)
    }
}

impl core::ops::BitXorAssign<Flags> for Flags {
    fn bitxor_assign(&mut self, rhs: Flags)
        ensures
            final(self).0 == old(self).0 ^ rhs.0,
    {
        self.0 = self.0 ^ rhs.0;
    }
}

impl core::ops::Not for Flags {
    type Output = Flags;

    fn not(self) -> (r: Flags) {
        Flags(!self.0)
    }
}

impl vstd::std_specs::ops::NotSpecImpl for Flags {
    open spec fn obeys_not_spec() -> bool {
        true
    }

    open spec fn not_req(self) -> bool {
        true
    }

    open spec fn not_spec(self) -> Flags {
        Flags(!self.0)
    }
}

/// The FLAGS register with lazily computed arithmetic flags.
///
/// `dynamic_value` holds the arithmetic flags, `valid_mask` the flags of it that
/// are up to date (the others are computed from the last operation on demand),
/// and `static_value` the control flags.
#[derive(Clone, Copy)]
pub struct FlagsRegister {
    pub dynamic_value: Flags,
    pub static_value: Flags,
    pub valid_mask: Flags,
    pub always_0_mask: Flags,
    pub always_1_mask: Flags,
}

/// Bits of FLAGS that are always zero on a generation (0 where forced to 0).
pub open spec fn spec_mask_0(generation: Generation) -> u32 {
    match generation {
        Generation::I8086 | Generation::I186 | Generation::I286 => 0x003f_7fd5u32 & 0x0000_0fff,
        Generation::I386 => 0x003f_7fd5u32 & 0x0003_ffff,
        Generation::I486 => 0x003f_7fd5u32 & 0x0027_ffff,
        Generation::Pentium | Generation::P6 | Generation::P7 => 0x003f_7fd5,
    }
}

/// Bits of FLAGS that are always one on a generation.
pub open spec fn spec_mask_1(generation: Generation) -> u32 {
    match generation {
        Generation::I8086 | Generation::I186 => 0x0000_0002u32 | 0x0000_f000,
        _ => 0x0000_0002,
    }
}

impl FlagsRegister {
    /// The arithmetic flags, kept in `dynamic_value`: CF, PF, AF, ZF, SF, OF.
    pub const DYNAMIC_VALUE_MASK: u32 = 0x0000_08d5;

    /// The dynamic value of the FLAGS register.
    pub fn dynamic_value(&self) -> (r: Flags)
        ensures
            r == self.dynamic_value,
    {
        self.dynamic_value
    }

    /// Creates a new `FlagsRegister` struct with the appropriate masks based on the CPU generation.
    pub fn new(generation: Generation) -> (r: Self)
        ensures
            r.dynamic_value.0 == 0,
            r.static_value.0 == 0,
            r.valid_mask.0 == 0xffff_ffff,
            r.always_0_mask.0 == spec_mask_0(generation),
            r.always_1_mask.0 == spec_mask_1(generation),
    {
        let mask0 = Self::mask_0_for(generation);
        let mask1 = Self::mask_1_for(generation);
        Self {
            dynamic_value: Flags(Flags::ZERO),
            static_value: Flags(Flags::ZERO),
            valid_mask: Flags(Flags::NOT_ZERO),
            always_0_mask: Flags::from_bits(mask0),
            always_1_mask: Flags::from_bits(mask1),
        }
    }

    pub fn mask_0_for(generation: Generation) -> (r: u32)
        ensures
            r == spec_mask_0(generation),
    {
        let base: u32 = 0x003f_7fd5;
        match generation {
            Generation::I8086 | Generation::I186 | Generation::I286 => base & 0x0000_0fff,
            Generation::I386 => base & 0x0003_ffff,
            Generation::I486 => base & 0x0027_ffff,
            Generation::Pentium | Generation::P6 | Generation::P7 => base,
        }
    }

    pub fn mask_1_for(generation: Generation) -> (r: u32)
        ensures
            r == spec_mask_1(generation),
    {
        let base: u32 = 0x0000_0002;
        match generation {
            Generation::I8086 | Generation::I186 => base | 0x0000_f000,
            Generation::I286 | Generation::I386 | Generation::I486 | Generation::Pentium
            | Generation::P6 | Generation::P7 => base,
        }
    }

    /// Sets the dynamic value of the FLAGS register and marks all flags as valid.
    pub fn set(&mut self, value: Flags)
        ensures
            *final(self) == (FlagsRegister {
                dynamic_value: Flags(old(self).dynamic_value.0 | value.0),
                valid_mask: Flags(old(self).valid_mask.0 | value.0),
                ..*old(self)
            }),
    {
        self.dynamic_value = Flags(self.dynamic_value.0 | value.0);
        self.valid_mask = Flags(self.valid_mask.0 | value.0);
    }

    /// Clears the dynamic value of the FLAGS register and marks all flags as valid.
    pub fn clear(&mut self, value: Flags)
        ensures
            *final(self) == (FlagsRegister {
                dynamic_value: Flags(old(self).dynamic_value.0 & !value.0),
                valid_mask: Flags(old(self).valid_mask.0 | value.0),
                ..*old(self)
            }),
    {
        self.dynamic_value = Flags(self.dynamic_value.0 & !value.0);
        self.valid_mask = Flags(self.valid_mask.0 | value.0);
    }

    /// Sets the dynamic value of a specific flag in the FLAGS register.
    pub fn set_dynamic(&mut self, flag: Flags, value: bool)
        ensures
            *final(self) == (FlagsRegister {
                dynamic_value: Flags(with_bits(old(self).dynamic_value.0, flag.0, value)),
                valid_mask: Flags(old(self).valid_mask.0 | flag.0),
                ..*old(self)
            }),
    {
        if value {
            self.set(flag);
        } else {
            self.clear(flag);
        }
    }

    /// Sets the static value of a specific flag in the FLAGS register.
    pub fn set_static(&mut self, flag: Flags, value: bool)
        ensures
            *final(self) == (FlagsRegister {
                static_value: Flags(with_bits(old(self).static_value.0, flag.0, value)),
                ..*old(self)
            }),
    {
        if value {
            self.static_value = Flags(self.static_value.0 | flag.0);
        } else {
            self.static_value = Flags(self.static_value.0 & !flag.0);
        }
    }

    /// Adjusts the flags after generic arithmetic operations (ADD, SUB, etc.).
    pub fn adjust_after_arith_op(&mut self, is_zero: bool)
        ensures
            *final(self) == (FlagsRegister {
                dynamic_value: Flags(if is_zero { 0x40 } else { 0 }),
                valid_mask: Flags(0x40),
                ..*old(self)
            }),
    {
        self.dynamic_value = if is_zero {
            Flags(Flags::ZF)
        } else {
            Flags(Flags::ZERO)
        };
        self.valid_mask = Flags(Flags::ZF);
    }

    /// Adjusts the flags after INC and DEC operations.
    ///
    /// Note: INC and DEC do not affect CF
    pub fn adjust_after_inc_dec(&mut self, lazy_op: &LazyOp, is_zero: bool)
        requires
            lazy_op.cf_computable(old(self).valid_mask.0),
        ensures
            *final(self) == (FlagsRegister {
                dynamic_value: Flags(
                    (if lazy_op.current_cf(old(self).dynamic_value.0, old(self).valid_mask.0) {
                        1u32
                    } else {
                        0u32
                    }) | (if is_zero { 0x40u32 } else { 0u32 }),
                ),
                valid_mask: Flags(0x41),
                ..*old(self)
            }),
    {
        let cf = if lazy_op.recompute_cf(self) {
            Flags::CF
        } else {
            Flags::ZERO
        };
        let zf = if is_zero {
            Flags::ZF
        } else {
            Flags::ZERO
        };
        self.dynamic_value = Flags(cf | zf);
        self.valid_mask = Flags(0x41);
    }

    /// Adjusts the flags after logical operations (AND, OR, XOR).
    ///
    /// Note: Clear OF and CF on after logical operations, and set ZF according to the result. AF is undefined for logical operations.
    pub fn adjust_after_logic_op(&mut self, is_zero: bool)
        ensures
            *final(self) == (FlagsRegister {
                dynamic_value: Flags(
                    (old(self).dynamic_value.0 & !0x0851u32) | (if is_zero { 0x40u32 } else { 0u32 }),
                ),
                valid_mask: Flags(0x0851),
                ..*old(self)
            }),
    {
        let mask: u32 = 0x0851;
        let zf = if is_zero {
            Flags::ZF
        } else {
            Flags::ZERO
        };
        self.dynamic_value = Flags((self.dynamic_value.0 & !mask) | zf);
        self.valid_mask = Flags(mask);
    }

    /// Adjusts the flags after shift operations (SHL, SHR, SAR).
    pub fn adjust_after_shift(&mut self, is_zero: bool)
        ensures
            *final(self) == (FlagsRegister {
                dynamic_value: Flags(if is_zero { 0x40 } else { 0 }),
                valid_mask: Flags(0x40),
                ..*old(self)
            }),
    {
        self.dynamic_value = if is_zero {
            Flags(Flags::ZF)
        } else {
            Flags(Flags::ZERO)
        };
        self.valid_mask = Flags(Flags::ZF);
    }

    /// Marks the given flags as out of date, to be computed from the last operation.
    pub fn unresolve(&mut self, mask: Flags)
        ensures
            *final(self) == (FlagsRegister {
                valid_mask: Flags(old(self).valid_mask.0 & !mask.0),
                ..*old(self)
            }),
    {
        self.valid_mask = Flags(self.valid_mask.0 & !mask.0);
    }

    /// Loads the whole FLAGS value: the arithmetic flags become dynamic and valid.
    pub fn set_bits(&mut self, bits: Flags)
        ensures
            *final(self) == (FlagsRegister {
                dynamic_value: Flags(bits.0 & 0x08d5),
                static_value: Flags(bits.0 & !0x08d5u32),
                valid_mask: Flags(0xffff_ffff),
                ..*old(self)
            }),
    {
        self.dynamic_value = Flags(bits.0 & Self::DYNAMIC_VALUE_MASK);
        self.static_value = Flags(bits.0 & !Self::DYNAMIC_VALUE_MASK);
        self.valid_mask = Flags(Flags::NOT_ZERO);
    }

    /// The FLAGS value that the register shows: the dynamic and static parts
    /// merged, with the bits forced to 0 and 1 by the generation.
    pub open spec fn view_value(self) -> u32 {
        ((self.dynamic_value.0 & 0x08d5) | (self.static_value.0 & !0x08d5u32))
            & self.always_0_mask.0 | self.always_1_mask.0
    }

    /// The value of the FLAGS register always has the bits of
    /// `always_1_mask` set, and no bit set that is neither in
    /// `always_0_mask` nor in `always_1_mask`.
    pub proof fn lemma_view_value_fixed_bits(self)
        ensures
            self.view_value() & self.always_1_mask.0 == self.always_1_mask.0,
            self.view_value() & !(self.always_0_mask.0 | self.always_1_mask.0) == 0,
    {
        let d = self.dynamic_value.0;
        let s = self.static_value.0;
        let z = self.always_0_mask.0;
        let o = self.always_1_mask.0;
        assert((((d & 0x08d5) | (s & !0x08d5u32)) & z | o) & o == o
            && (((d & 0x08d5) | (s & !0x08d5u32)) & z | o) & !(z | o) == 0) by (bit_vector);
    }

    /// Resolves lazy flags and returns the final value of the FLAGS register.
    pub fn resolve(&mut self, lazy_op: &LazyOp) -> (r: Flags)
        requires
            lazy_op.cf_computable(old(self).valid_mask.0),
        ensures
            r.0 == final(self).view_value(),
            final(self).always_0_mask == old(self).always_0_mask,
            final(self).always_1_mask == old(self).always_1_mask,
            final(self).static_value.0 == old(self).static_value.0 & !0x08d5u32,
            final(self).dynamic_value.0 & 0x08d5 == final(self).dynamic_value.0,
            final(self).dynamic_value.0 == lazy_op.resolved_all(*old(self)).dynamic_value.0 & 0x08d5,
            final(self).valid_mask == lazy_op.resolved_all(*old(self)).valid_mask,
            r.0 & old(self).always_1_mask.0 == old(self).always_1_mask.0,
            r.0 & !(old(self).always_0_mask.0 | old(self).always_1_mask.0) == 0,
    {
        lazy_op.resolve_all_flags(self);
        let d0 = self.dynamic_value.0;
        let s0 = self.static_value.0;
        self.dynamic_value = Flags(self.dynamic_value.0 & Self::DYNAMIC_VALUE_MASK);
        self.static_value = Flags(self.static_value.0 & !Self::DYNAMIC_VALUE_MASK);
        let v = (self.dynamic_value.0 | self.static_value.0) & self.always_0_mask.0
            | self.always_1_mask.0;
        proof {
            crate::ume86::lazy::lemma_mask_twice(d0, 0x08d5);
            crate::ume86::lazy::lemma_mask_twice(s0, !0x08d5u32);
            self.lemma_view_value_fixed_bits();
        }
        Flags(v)
    }

    /// Discards the specified flags from the dynamic value
    pub fn discard(&mut self, mask: Flags)
        ensures
            *final(self) == (FlagsRegister {
                dynamic_value: Flags(old(self).dynamic_value.0 & !mask.0),
                valid_mask: Flags(old(self).valid_mask.0 | mask.0),
                ..*old(self)
            }),
    {
        self.dynamic_value = Flags(self.dynamic_value.0 & !mask.0);
        self.valid_mask = Flags(self.valid_mask.0 | mask.0);
    }

    pub fn cf(&self) -> (r: bool)
        ensures
            r == has_bits(self.dynamic_value.0, 0x1),
    {
        self.dynamic_value.contains(Flags(Flags::CF))
    }

    pub fn zf(&self) -> (r: bool)
        ensures
            r == has_bits(self.dynamic_value.0, 0x40),
    {
        self.dynamic_value.contains(Flags(Flags::ZF))
    }

    pub fn sf(&self) -> (r: bool)
        ensures
            r == has_bits(self.dynamic_value.0, 0x80),
    {
        self.dynamic_value.contains(Flags(Flags::SF))
    }

    pub fn of(&self) -> (r: bool)
        ensures
            r == has_bits(self.dynamic_value.0, 0x800),
    {
        self.dynamic_value.contains(Flags(Flags::OF))
    }

    pub fn pf(&self) -> (r: bool)
        ensures
            r == has_bits(self.dynamic_value.0, 0x4),
    {
        self.dynamic_value.contains(Flags(Flags::PF))
    }
}

} // verus!
