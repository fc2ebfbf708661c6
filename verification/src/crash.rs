//! What is written down of a native crash.

use vstd::prelude::*;
use vstd::string::*;

use crate::text;

verus! {

/// The last call into the codec.
#[derive(Debug, Clone, Copy, PartialEq, Eq, Structural)]
pub enum OpusCall {
    /// There was none.
    Idle,
    Encode,
    Decode,
    Ctl,
    Destroy,
}

/// The module that a crash happened in.
#[derive(Debug)]
pub struct CrashModule {
    pub name: String,
    pub base: u64,
}

/// What is known of a crash.
#[derive(Debug)]
pub struct Crash {
    pub code: u32,
    pub address: u64,
    pub module: Option<CrashModule>,
    pub last_call: OpusCall,
    /// The last setting of the codec; 0 for none.
    pub last_ctl_request: i32,
}

/// Hexadecimal numeral of `n`, without leading zeros.
pub open spec fn hex_numeral(n: nat) -> Seq<char>
    decreases n,
{
    if n < 16 {
        seq![text::hex_char(n as int)]
    } else {
        hex_numeral(n / 16).push(text::hex_char((n % 16) as int))
    }
}

/// The last `width` hexadecimal digits of `n`.
pub open spec fn hex_digits(n: nat, width: nat) -> Seq<char>
    decreases width,
{
    if width == 0 {
        Seq::empty()
    } else {
        hex_digits(n / 16, (width - 1) as nat).push(text::hex_char((n % 16) as int))
    }
}

/// The name of a call.
pub open spec fn call_name(c: OpusCall) -> Seq<char> {
    match c {
        OpusCall::Idle => "none"@,
        OpusCall::Encode => "opus_encode"@,
        OpusCall::Decode => "opus_decode"@,
        OpusCall::Ctl => "opus_ctl"@,
        OpusCall::Destroy => "opus_destroy"@,
    }
}

/// What is said of the module of a crash: its name, its base, and how far behind it the crash is.
pub open spec fn module_text(m: Option<CrashModule>, address: u64) -> Seq<char> {
    match m {
        Some(m) => "  module="@ + m.name@ + "  base=0x"@ + hex_numeral(m.base as nat)
            + "  offset=0x"@ + hex_numeral(
            if address >= m.base {
                (address - m.base) as nat
            } else {
                0
            },
        ),
        None => Seq::empty(),
    }
}

/// What is said of the last setting of the codec.
pub open spec fn ctl_text(request: i32) -> Seq<char> {
    if request != 0 {
        "  last_ctl_request="@ + text::signed_dec(request as int)
    } else {
        Seq::empty()
    }
}

/// The line that is written down of a crash; an empty one where nothing is known.
pub open spec fn crash_text(c: Option<Crash>) -> Seq<char> {
    match c {
        Some(c) => "CRASH ExceptionCode=0x"@ + hex_digits(c.code as nat, 8) + " at 0x"@
            + hex_numeral(c.address as nat) + module_text(c.module, c.address)
            + "  last_opus_call="@ + call_name(c.last_call) + ctl_text(c.last_ctl_request) + "\n"@,
        None => "\n"@,
    }
}

/// Appends the hexadecimal numeral of `n`.
fn push_hex(s: &mut String, n: u64)
    ensures
        final(s)@ == old(s)@ + hex_numeral(n as nat),
    decreases n,
{
    if n >= 16 {
        push_hex(s, n / 16);
    }
    s.push(text::hex_digit((n % 16) as u8));
}

/// Appends the last `width` hexadecimal digits of `n`.
fn push_hex_digits(s: &mut String, n: u32, width: usize)
    ensures
        final(s)@ == old(s)@ + hex_digits(n as nat, width as nat),
    decreases width,
{
    let ghost before = s@;
    if width > 0 {
        push_hex_digits(s, n / 16, width - 1);
        s.push(text::hex_digit((n % 16) as u8));
    } else {
        assert(before + Seq::<char>::empty() =~= before);
    }
}

/// The line that is written down of a crash.
pub fn crash_line(c: &Option<Crash>) -> (s: String)
    ensures
        s@ == crash_text(*c),
{
    match c {
        Some(c) => {
            let mut s = "CRASH ExceptionCode=0x".to_owned();
            push_hex_digits(&mut s, c.code, 8);
            s.append(" at 0x");
            push_hex(&mut s, c.address);
            let ghost before = s@;
            match &c.module {
                Some(m) => {
                    let offset: u64 = if c.address >= m.base {
                        c.address - m.base
                    } else {
                        0
                    };
                    let mut t = "  module=".to_owned();
                    t.append(m.name.as_str());
                    t.append("  base=0x");
                    push_hex(&mut t, m.base);
                    t.append("  offset=0x");
                    push_hex(&mut t, offset);
                    s.append(t.as_str());
                },
                None => {
                    assert(before + Seq::<char>::empty() =~= before);
                },
            }
            s.append("  last_opus_call=");
            match c.last_call {
                OpusCall::Idle => s.append("none"),
                OpusCall::Encode => s.append("opus_encode"),
                OpusCall::Decode => s.append("opus_decode"),
                OpusCall::Ctl => s.append("opus_ctl"),
                OpusCall::Destroy => s.append("opus_destroy"),
            }
            let ghost before = s@;
            if c.last_ctl_request != 0 {
                let mut t = "  last_ctl_request=".to_owned();
                text::push_signed(&mut t, c.last_ctl_request);
                s.append(t.as_str());
            } else {
                assert(before + Seq::<char>::empty() =~= before);
            }
            s.append("\n");
            s
        },
        None => "\n".to_owned(),
    }
}

/// The value of a hexadecimal digit in lower case.
pub open spec fn digit_value(c: char) -> int {
    if '0' <= c <= '9' {
        c as int - 48
    } else {
        c as int - 87
    }
}

/// The number that hexadecimal digits spell.
pub open spec fn hex_number(s: Seq<char>) -> int
    decreases s.len(),
{
    if s.len() == 0 {
        0
    } else {
        16 * hex_number(s.drop_last()) + digit_value(s.last())
    }
}

/// A hexadecimal numeral reads back as its number, and one of a fixed width as much of it as fits.
pub proof fn law_hex_numerals(n: nat, width: nat)
    ensures
        hex_number(hex_numeral(n)) == n,
        hex_numeral(n).len() > 0,
        hex_digits(n, width).len() == width,
        width == 8 && n < 0x1_0000_0000 ==> hex_number(hex_digits(n, width)) == n,
{
    lemma_hex_numeral(n);
    lemma_hex_digits(n, width);
    if width == 8 && n < 0x1_0000_0000 {
        assert(sixteens(8) == 0x1_0000_0000) by {
            reveal_with_fuel(sixteens, 9);
        }
    }
}

/// A power of sixteen.
spec fn sixteens(k: nat) -> int
    decreases k,
{
    if k == 0 {
        1
    } else {
        16 * sixteens((k - 1) as nat)
    }
}

proof fn lemma_hex_numeral(n: nat)
    ensures
        hex_number(hex_numeral(n)) == n,
        hex_numeral(n).len() > 0,
    decreases n,
{
    reveal_with_fuel(hex_number, 2);
    if n >= 16 {
        lemma_hex_numeral(n / 16);
        assert(hex_numeral(n).drop_last() =~= hex_numeral(n / 16));
    } else {
        assert(hex_numeral(n).drop_last() =~= Seq::<char>::empty());
    }
}

proof fn lemma_hex_digits(n: nat, width: nat)
    ensures
        hex_digits(n, width).len() == width,
        n < sixteens(width) ==> hex_number(hex_digits(n, width)) == n,
    decreases width,
{
    if width > 0 {
        lemma_hex_digits(n / 16, (width - 1) as nat);
        assert(hex_digits(n, width).drop_last() =~= hex_digits(n / 16, (width - 1) as nat));
    }
}

/// The line of a crash tells the code in eight digits, the address, the module with its base and
/// how far behind it the crash is, the last call into the codec, and the last setting where there
/// was one.
pub proof fn law_crash_lines(c: Crash, s: String)
    requires
        call_ensures(crash_line, (&Some(c),), s),
    ensures
        ({
            let head = "CRASH ExceptionCode=0x"@ + hex_digits(c.code as nat, 8) + " at 0x"@
                + hex_numeral(c.address as nat);
            let module = match c.module {
                Some(m) => "  module="@ + m.name@ + "  base=0x"@ + hex_numeral(m.base as nat)
                    + "  offset=0x"@ + hex_numeral(
                    if c.address >= m.base {
                        (c.address - m.base) as nat
                    } else {
                        0
                    },
                ),
                None => Seq::empty(),
            };
            let call = match c.last_call {
                OpusCall::Idle => "none"@,
                OpusCall::Encode => "opus_encode"@,
                OpusCall::Decode => "opus_decode"@,
                OpusCall::Ctl => "opus_ctl"@,
                OpusCall::Destroy => "opus_destroy"@,
            };
            let setting = if c.last_ctl_request == 0 {
                Seq::empty()
            } else {
                "  last_ctl_request="@ + text::signed_dec(c.last_ctl_request as int)
            };
            s@ == head + module + "  last_opus_call="@ + call + setting + "\n"@
        }),
{
}

/// Where nothing is known of a crash its line is empty.
pub proof fn law_unknown_crashes(s: String)
    requires
        call_ensures(crash_line, (&None,), s),
    ensures
        s@.len() == 1,
        s@[0] == '\n',
{
    reveal_strlit("\n");
}

} // verus!
