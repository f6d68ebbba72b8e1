//! Architecture-specific thread register-state layouts.
//!
//! Each layout mirrors the kernel ABI for the "get register state" call of
//! its architecture family: a wide general/segment-register layout for
//! x86-64, and a general-register + program-counter/link-register/status
//! layout for arm64. The kernel call works on a counted buffer whose
//! capacity is given in 4-byte machine words, so each layout reports the
//! number of words it occupies.

use vstd::prelude::*;

verus! {

/// The kernel expresses register-state buffer sizes as counts of 4-byte
/// machine words; this is the type those counts travel in.
#[allow(non_camel_case_types)]
pub type mach_msg_type_number_t = u32;

/// Thread register state for the x86-64 architecture family: sixteen
/// general-purpose registers, instruction pointer, flags, and three
/// segment registers, in the kernel's expected order.
#[allow(non_camel_case_types)]
#[derive(Copy, Clone, Debug, Default, Hash, PartialOrd, PartialEq, Eq, Ord)]
pub struct x86_thread_state64_t {
    pub __rax: u64,
    pub __rbx: u64,
    pub __rcx: u64,
    pub __rdx: u64,
    pub __rdi: u64,
    pub __rsi: u64,
    pub __rbp: u64,
    pub __rsp: u64,
    pub __r8: u64,
    pub __r9: u64,
    pub __r10: u64,
    pub __r11: u64,
    pub __r12: u64,
    pub __r13: u64,
    pub __r14: u64,
    pub __r15: u64,
    pub __rip: u64,
    pub __rflags: u64,
    pub __cs: u64,
    pub __fs: u64,
    pub __gs: u64,
}

impl x86_thread_state64_t {
    /// A zero-initialized state, ready to be handed to the kernel call
    /// as an output buffer.
    pub fn new() -> (r: Self)
        ensures
            r.is_zeroed(),
    {
        Self {
            __rax: 0,
            __rbx: 0,
            __rcx: 0,
            __rdx: 0,
            __rdi: 0,
            __rsi: 0,
            __rbp: 0,
            __rsp: 0,
            __r8: 0,
            __r9: 0,
            __r10: 0,
            __r11: 0,
            __r12: 0,
            __r13: 0,
            __r14: 0,
            __r15: 0,
            __rip: 0,
            __rflags: 0,
            __cs: 0,
            __fs: 0,
            __gs: 0,
        }
    }

    /// True when every register field is zero.
    pub open spec fn is_zeroed(self) -> bool {
        &&& self.__rax == 0
        &&& self.__rbx == 0
        &&& self.__rcx == 0
        &&& self.__rdx == 0
        &&& self.__rdi == 0
        &&& self.__rsi == 0
        &&& self.__rbp == 0
        &&& self.__rsp == 0
        &&& self.__r8 == 0
        &&& self.__r9 == 0
        &&& self.__r10 == 0
        &&& self.__r11 == 0
        &&& self.__r12 == 0
        &&& self.__r13 == 0
        &&& self.__r14 == 0
        &&& self.__r15 == 0
        &&& self.__rip == 0
        &&& self.__rflags == 0
        &&& self.__cs == 0
        &&& self.__fs == 0
        &&& self.__gs == 0
    }

    /// The capacity of this layout in 4-byte machine words, as the kernel's
    /// counted-buffer contract requires: 21 fields of 8 bytes each make 168
    /// bytes, or 42 words.
    pub fn count() -> (r: mach_msg_type_number_t)
        ensures
            r == 42,
    {
        42
    }
}

/// Thread register state for the arm64 architecture family: general
/// registers x0-x28, frame pointer, link register, stack pointer, program
/// counter, and the program status register (padded so 32-bit and 64-bit
/// clients see the same size).
#[allow(non_camel_case_types)]
#[derive(Copy, Clone, Debug, Default, Hash, PartialOrd, PartialEq, Eq, Ord)]
pub struct arm_thread_state64_t {
    pub __x: [u64; 29],
    pub __fp: u64,
    pub __lr: u64,
    pub __sp: u64,
    pub __pc: u64,
    pub __cpsr: u32,
    pub __pad: u32,
}

impl arm_thread_state64_t {
    /// A zero-initialized state, ready to be handed to the kernel call
    /// as an output buffer.
    pub fn new() -> (r: Self)
        ensures
            r.is_zeroed(),
    {
        Self {
            __x: [0; 29],
            __fp: 0,
            __lr: 0,
            __sp: 0,
            __pc: 0,
            __cpsr: 0,
            __pad: 0,
        }
    }

    /// True when every register field is zero.
    pub open spec fn is_zeroed(self) -> bool {
        &&& forall|i: int| 0 <= i < 29 ==> self.__x[i] == 0
        &&& self.__fp == 0
        &&& self.__lr == 0
        &&& self.__sp == 0
        &&& self.__pc == 0
        &&& self.__cpsr == 0
        &&& self.__pad == 0
    }

    /// The capacity of this layout in 4-byte machine words, as the kernel's
    /// counted-buffer contract requires: 33 eight-byte fields and two
    /// four-byte fields make 272 bytes, or 68 words.
    pub fn count() -> (r: mach_msg_type_number_t)
        ensures
            r == 68,
    {
        68
    }
}

} // verus!
