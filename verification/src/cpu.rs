//! Exception dispatch logic: decoding the exception syndrome into a
//! human-readable cause, composing the unhandled-exception report, and the
//! decisions of the IRQ handler. The vector table itself and the register
//! save/restore around it are assembly artifacts of the machine-facing
//! shell; this module supplies every value and string they report.

use vstd::prelude::*;
use vstd::string::StringExecFns;

verus! {

/// MMIO address of the per-core interrupt-enable register; writing
/// `ENABLE_CPU_TIMER_IRQ` there unmasks the CPU-local timer IRQ source.
pub const INTERRUPT_CONTROLLER: u32 = 0x4000_0040;

/// Value written to the interrupt controller to enable the timer IRQ.
pub const ENABLE_CPU_TIMER_IRQ: u32 = 0x2;

/// MMIO address of the pending-IRQ status register the IRQ handler reads.
pub const PENDING_IRQ: u32 = 0x4000_0060;

/// The pending-IRQ values the handler dispatches to the timer; every other
/// value is only logged.
pub fn is_timer_irq(pending: u32) -> (r: bool)
    ensures
        r <==> 1 <= pending <= 8,
{
    1 <= pending && pending <= 8
}

/// An exception vector base is usable when its low eleven bits are zero.
pub fn vector_base_aligned(base: u64) -> (r: bool)
    ensures
        r <==> base % 2048 == 0,
{
    proof {
        assert((base & 0x7ff) == base % 2048) by (bit_vector);
    }
    base & 0x7ff == 0
}

/// The name of an exception type selector: 0 synchronous, 1 IRQ, 2 FIQ,
/// anything else an error.
pub open spec fn spec_exception_type(tp: u32) -> Seq<char> {
    if tp == 0 {
        "exception"@
    } else if tp == 1 {
        "irq"@
    } else if tp == 2 {
        "fast irq"@
    } else {
        "error"@
    }
}

pub fn exception_type_name(tp: u32) -> (s: &'static str)
    ensures
        s@ == spec_exception_type(tp),
{
    match tp {
        0 => "exception",
        1 => "irq",
        2 => "fast irq",
        _ => "error",
    }
}

/// The documented meaning of an exception-class value (bits 31:26 of the
/// exception syndrome); every undocumented value reads "Unknown".
pub open spec fn spec_exception_cause(ec: u32) -> Seq<char> {
    if ec == 0b00_0001 {
        "Trapped WFI/WFE"@
    } else if ec == 0b00_1110 {
        "Illegal execution"@
    } else if ec == 0b01_0101 {
        "System call"@
    } else if ec == 0b10_0000 {
        "Instruction abort, lower EL"@
    } else if ec == 0b10_0001 {
        "Instruction abort, same EL"@
    } else if ec == 0b10_0010 {
        "Instruction alignment fault"@
    } else if ec == 0b10_0100 {
        "Data abort, lower EL"@
    } else if ec == 0b10_0101 {
        "Data abort, same EL"@
    } else if ec == 0b10_0110 {
        "Stack alignment fault"@
    } else if ec == 0b10_1100 {
        "Floating point"@
    } else {
        "Unknown"@
    }
}

/// Decode the exception-class field of an exception-syndrome value into its
/// documented cause.
pub fn exception_cause(esr: u32) -> (s: &'static str)
    ensures
        s@ == spec_exception_cause(esr >> 26),
{
    match esr >> 26 {
        0b00_0000 => "Unknown",
        0b00_0001 => "Trapped WFI/WFE",
        0b00_1110 => "Illegal execution",
        0b01_0101 => "System call",
        0b10_0000 => "Instruction abort, lower EL",
        0b10_0001 => "Instruction abort, same EL",
        0b10_0010 => "Instruction alignment fault",
        0b10_0100 => "Data abort, lower EL",
        0b10_0101 => "Data abort, same EL",
        0b10_0110 => "Stack alignment fault",
        0b10_1100 => "Floating point",
        _ => "Unknown",
    }
}

/// The character for one hexadecimal digit.
pub open spec fn spec_hex_digit(d: int) -> char {
    if d == 0 {
        '0'
    } else if d == 1 {
        '1'
    } else if d == 2 {
        '2'
    } else if d == 3 {
        '3'
    } else if d == 4 {
        '4'
    } else if d == 5 {
        '5'
    } else if d == 6 {
        '6'
    } else if d == 7 {
        '7'
    } else if d == 8 {
        '8'
    } else if d == 9 {
        '9'
    } else if d == 10 {
        'a'
    } else if d == 11 {
        'b'
    } else if d == 12 {
        'c'
    } else if d == 13 {
        'd'
    } else if d == 14 {
        'e'
    } else {
        'f'
    }
}

/// The lowercase hexadecimal digits of `x`, most significant first, without
/// leading zeros.
pub open spec fn spec_hex(x: int) -> Seq<char>
    decreases x,
{
    if x < 16 {
        seq![spec_hex_digit(x)]
    } else {
        spec_hex(x / 16) + seq![spec_hex_digit(x % 16)]
    }
}

fn hex_digit_str(d: u32) -> (s: &'static str)
    requires
        d < 16,
    ensures
        s@ == seq![spec_hex_digit(d as int)],
{
    let s = match d {
        0 => "0",
        1 => "1",
        2 => "2",
        3 => "3",
        4 => "4",
        5 => "5",
        6 => "6",
        7 => "7",
        8 => "8",
        9 => "9",
        10 => "a",
        11 => "b",
        12 => "c",
        13 => "d",
        14 => "e",
        _ => "f",
    };
    proof {
        reveal_strlit("0");
        reveal_strlit("1");
        reveal_strlit("2");
        reveal_strlit("3");
        reveal_strlit("4");
        reveal_strlit("5");
        reveal_strlit("6");
        reveal_strlit("7");
        reveal_strlit("8");
        reveal_strlit("9");
        reveal_strlit("a");
        reveal_strlit("b");
        reveal_strlit("c");
        reveal_strlit("d");
        reveal_strlit("e");
        reveal_strlit("f");
    }
    s
}

/// Format `x` in lowercase hexadecimal, without leading zeros.
pub fn to_hex(x: u32) -> (s: String)
    ensures
        s@ == spec_hex(x as int),
    decreases x,
{
    if x < 16 {
        String::from_str(hex_digit_str(x))
    } else {
        let mut s = to_hex(x / 16);
        s.append(hex_digit_str(x % 16));
        s
    }
}

/// The decimal digits of `x`, most significant first, without leading
/// zeros.
pub open spec fn spec_dec(x: int) -> Seq<char>
    decreases x,
{
    if x < 10 {
        seq![spec_hex_digit(x)]
    } else {
        spec_dec(x / 10) + seq![spec_hex_digit(x % 10)]
    }
}

/// Format `x` in decimal.
pub fn to_decimal(x: u32) -> (s: String)
    ensures
        s@ == spec_dec(x as int),
    decreases x,
{
    if x < 10 {
        String::from_str(hex_digit_str(x))
    } else {
        let mut s = to_decimal(x / 10);
        s.append(hex_digit_str(x % 10));
        s
    }
}

/// The report the unhandled-exception path panics with: exception type,
/// syndrome (with its decoded cause), exception-link and fault addresses.
pub open spec fn spec_unhandled_message(tp: u32, esr: u32, elr: u32, far: u32) -> Seq<char> {
    "Unhandled "@ + spec_exception_type(tp) + ", esr: 0x"@ + spec_hex(esr as int) + " ("@
        + spec_exception_cause(esr >> 26) + "), elr (address): 0x"@ + spec_hex(elr as int)
        + ", far (address): 0x"@ + spec_hex(far as int) + ", goodnight..."@
}

/// Compose the unhandled-exception report. The shell panics with exactly
/// this string.
pub fn unhandled_exception_message(tp: u32, esr: u32, elr: u32, far: u32) -> (m: String)
    ensures
        m@ == spec_unhandled_message(tp, esr, elr, far),
{
    let mut m = String::from_str("Unhandled ");
    m.append(exception_type_name(tp));
    m.append(", esr: 0x");
    let esr_hex = to_hex(esr);
    m.append(esr_hex.as_str());
    m.append(" (");
    m.append(exception_cause(esr));
    m.append("), elr (address): 0x");
    let elr_hex = to_hex(elr);
    m.append(elr_hex.as_str());
    m.append(", far (address): 0x");
    let far_hex = to_hex(far);
    m.append(far_hex.as_str());
    m.append(", goodnight...");
    m
}

} // verus!
