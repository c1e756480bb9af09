//! The registers of the x86_64 guest and the registers that carry the arguments of calls.

use vstd::prelude::*;
use crate::text::{concat, decimal, decimal_string};

verus! {

/// The registers of an x86_64 CPU
#[derive(Debug, Clone, Copy, PartialEq, Eq, Structural)]
pub enum Regs {
    Rax,
    Rbx,
    Rcx,
    Rdx,
    Rsi,
    Rdi,
    Rbp,
    Rsp,
    R8,
    R9,
    R10,
    R11,
    R12,
    R13,
    R14,
    R15,
    Rip,
    Rflags,
}

/// The number of a register.
pub open spec fn reg_number(r: Regs) -> i32 {
    match r {
        Regs::Rax => 0,
        Regs::Rbx => 1,
        Regs::Rcx => 2,
        Regs::Rdx => 3,
        Regs::Rsi => 4,
        Regs::Rdi => 5,
        Regs::Rbp => 6,
        Regs::Rsp => 7,
        Regs::R8 => 8,
        Regs::R9 => 9,
        Regs::R10 => 10,
        Regs::R11 => 11,
        Regs::R12 => 12,
        Regs::R13 => 13,
        Regs::R14 => 14,
        Regs::R15 => 15,
        Regs::Rip => 16,
        Regs::Rflags => 17,
    }
}

impl Regs {
    /// The stack pointer
    pub fn sp() -> (r: Regs)
        ensures
            r == Regs::Rsp,
    {
        Regs::Rsp
    }

    /// The program counter
    pub fn pc() -> (r: Regs)
        ensures
            r == Regs::Rip,
    {
        Regs::Rip
    }

    /// The number of the register
    pub fn number(self) -> (n: i32)
        ensures
            n == reg_number(self),
    {
        match self {
            Regs::Rax => 0,
            Regs::Rbx => 1,
            Regs::Rcx => 2,
            Regs::Rdx => 3,
            Regs::Rsi => 4,
            Regs::Rdi => 5,
            Regs::Rbp => 6,
            Regs::Rsp => 7,
            Regs::R8 => 8,
            Regs::R9 => 9,
            Regs::R10 => 10,
            Regs::R11 => 11,
            Regs::R12 => 12,
            Regs::R13 => 13,
            Regs::R14 => 14,
            Regs::R15 => 15,
            Regs::Rip => 16,
            Regs::Rflags => 17,
        }
    }

    /// The register with number `n`, if there is one
    pub fn from_number(n: i32) -> (r: Option<Regs>)
        ensures
            r matches Some(reg) ==> reg_number(reg) == n,
            r is None <==> !(0 <= n < 18),
    {
        match n {
            0 => Some(Regs::Rax),
            1 => Some(Regs::Rbx),
            2 => Some(Regs::Rcx),
            3 => Some(Regs::Rdx),
            4 => Some(Regs::Rsi),
            5 => Some(Regs::Rdi),
            6 => Some(Regs::Rbp),
            7 => Some(Regs::Rsp),
            8 => Some(Regs::R8),
            9 => Some(Regs::R9),
            10 => Some(Regs::R10),
            11 => Some(Regs::R11),
            12 => Some(Regs::R12),
            13 => Some(Regs::R13),
            14 => Some(Regs::R14),
            15 => Some(Regs::R15),
            16 => Some(Regs::Rip),
            17 => Some(Regs::Rflags),
            _ => None,
        }
    }
}

/// The arguments and return value of the synchronous backdoor
#[derive(Debug, Clone, Copy, PartialEq, Eq, Structural)]
pub enum SyncBackdoorArgs {
    Ret,
    Cmd,
    Arg1,
    Arg2,
    Arg3,
    Arg4,
    Arg5,
    Arg6,
}

/// The register that carries each argument of the synchronous backdoor.
pub open spec fn backdoor_reg(arg: SyncBackdoorArgs) -> Regs {
    match arg {
        SyncBackdoorArgs::Ret => Regs::Rax,
        SyncBackdoorArgs::Cmd => Regs::Rax,
        SyncBackdoorArgs::Arg1 => Regs::Rdi,
        SyncBackdoorArgs::Arg2 => Regs::Rsi,
        SyncBackdoorArgs::Arg3 => Regs::Rdx,
        SyncBackdoorArgs::Arg4 => Regs::R10,
        SyncBackdoorArgs::Arg5 => Regs::R8,
        SyncBackdoorArgs::Arg6 => Regs::R9,
    }
}

/// The register that carries an argument of the synchronous backdoor
pub fn get_sync_backdoor_arch_regs(arg: SyncBackdoorArgs) -> (r: Regs)
    ensures
        r == backdoor_reg(arg),
{
    match arg {
        SyncBackdoorArgs::Ret => Regs::Rax,
        SyncBackdoorArgs::Cmd => Regs::Rax,
        SyncBackdoorArgs::Arg1 => Regs::Rdi,
        SyncBackdoorArgs::Arg2 => Regs::Rsi,
        SyncBackdoorArgs::Arg3 => Regs::Rdx,
        SyncBackdoorArgs::Arg4 => Regs::R10,
        SyncBackdoorArgs::Arg5 => Regs::R8,
        SyncBackdoorArgs::Arg6 => Regs::R9,
    }
}

/// Decimal notation of an `i32`, with a `-` when negative.
pub open spec fn signed_decimal(n: i32) -> Seq<char> {
    if n < 0 { "-"@ + decimal((-n) as nat) } else { decimal(n as nat) }
}

/// The register that carries argument `idx` of a `cdecl` call: only the first two arguments
/// are supported.
pub fn function_argument_reg(idx: i32) -> (r: Result<Regs, String>)
    ensures
        idx == 0 ==> r == Ok::<Regs, String>(Regs::Rdi),
        idx == 1 ==> r == Ok::<Regs, String>(Regs::Rsi),
        idx != 0 && idx != 1 ==> (r matches Err(m) && m@ == "Unsupported argument: "@ + signed_decimal(idx)),
{
    match idx {
        0 => Ok(Regs::Rdi),
        1 => Ok(Regs::Rsi),
        _ => {
            let digits: String = if idx < 0 {
                let magnitude: u32 = if idx == i32::MIN { 2147483648u32 } else { (-idx) as u32 };
                concat(String::from_str("-"), decimal_string(magnitude as usize).as_str())
            } else {
                decimal_string(idx as usize)
            };
            Err(concat(String::from_str("Unsupported argument: "), digits.as_str()))
        },
    }
}

} // verus!
