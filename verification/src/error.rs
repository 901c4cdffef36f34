//! Errors of the keyboard transport and of the VialRGB protocol.
use vstd::prelude::*;

use crate::text::{
    chars_of, contains_lit, contains_seq, decimal, dec_char, hex2, hex4, occurs_at, push_decimal,
    push_hex2, push_hex4, push_str, string_from_chars,
};

verus! {

/// Why talking to the keyboard failed.
///
/// Each variant carries what the corresponding message shows; `message`
/// renders the text that callers match on and show to the user.
#[derive(Debug, Clone, PartialEq, Eq)]
pub enum KeyboardError {
    /// No HID interface matches the VID/PID (and serial filter).
    NoDevice { vid: u16, pid: u16 },
    /// Several interfaces match and none of the heuristics picks one.
    AmbiguousInterface,
    /// Opening the chosen interface failed.
    Open { path: String, cause: String },
    /// The HID library reported an error while writing or reading.
    Hid { cause: String },
    /// Fewer bytes than a whole report were written.
    WriteShort { wrote: usize },
    /// Fewer bytes than a whole report were read.
    ReadShort { read: usize },
    /// The reply does not echo the command bytes; holds its first 8 bytes.
    UnexpectedResponse { bytes: Vec<u8> },
    /// A fastset packet was asked to carry more than 9 LEDs.
    FastsetTooMany { got: usize },
    /// The keyboard answered a supported-effects page without moving past
    /// the cursor, so the listing would never end.
    SupportedStalled { cursor: u16 },
}

/// `", "`-separated two-digit upper-case hex of `b` inside brackets
/// (`{:02X?}` of a byte slice).
pub open spec fn hex_list(b: Seq<u8>) -> Seq<char>
    decreases b.len(),
{
    if b.len() == 0 {
        Seq::empty()
    } else if b.len() == 1 {
        hex2(b[0])
    } else {
        hex_list(b.drop_last()) + ", "@ + hex2(b.last())
    }
}

/// The text of each error.
pub open spec fn error_message(e: KeyboardError) -> Seq<char> {
    match e {
        KeyboardError::NoDevice { vid, pid } => "no_device vid="@ + hex4(vid) + " pid="@ + hex4(
            pid,
        ),
        KeyboardError::AmbiguousInterface => "ambiguous_interface"@,
        KeyboardError::Open { path, cause } => "open_device path="@ + path@ + ": "@ + cause@,
        KeyboardError::Hid { cause } => cause@,
        KeyboardError::WriteShort { wrote } => "write_short wrote="@ + decimal(wrote as nat)
            + " expected=33"@,
        KeyboardError::ReadShort { read } => "read_short read="@ + decimal(read as nat)
            + " expected=32"@,
        KeyboardError::UnexpectedResponse { bytes } => "unexpected_response bytes=["@ + hex_list(
            bytes@,
        ) + "]"@,
        KeyboardError::FastsetTooMany { got } => "fastset_too_many got="@ + decimal(got as nat),
        KeyboardError::SupportedStalled { cursor } => "supported_stalled cursor="@ + decimal(
            cursor as nat,
        ),
    }
}

/// Appends `decimal(n)` for a `usize`.
fn push_decimal_usize(out: &mut Vec<char>, n: usize)
    ensures
        final(out)@ == old(out)@ + decimal(n as nat),
    decreases n,
{
    if n >= 10 {
        push_decimal_usize(out, n / 10);
    }
    let d = (n % 10) as u8;
    out.push((48u8 + d) as char);
    assert(final(out)@ =~= old(out)@ + decimal(n as nat)) by {
        if n >= 10 {
            assert(decimal(n as nat) == decimal((n / 10) as nat).push(dec_char((n % 10) as nat)));
        }
    }
}

/// The keyboard is absent: the error's text mentions `no_device`. Callers
/// treat this as the keyboard being offline rather than as a failure.
pub open spec fn means_offline(e: KeyboardError) -> bool {
    contains_seq(error_message(e), "no_device"@)
}

/// The "device not present" error always means offline.
pub proof fn law_no_device_means_offline(vid: u16, pid: u16)
    ensures
        means_offline(KeyboardError::NoDevice { vid, pid }),
{
    reveal_strlit("no_device vid=");
    reveal_strlit("no_device");
    let m = error_message(KeyboardError::NoDevice { vid, pid });
    assert(m.subrange(0, 9) =~= "no_device"@);
    assert(occurs_at(m, "no_device"@, 0));
}

impl KeyboardError {
    /// Whether the error's text mentions `no_device` (see `means_offline`).
    pub fn is_offline(&self) -> (b: bool)
        ensures
            b == means_offline(*self),
    {
        let m = self.message();
        contains_lit(&chars_of(m.as_str()), "no_device")
    }

    /// Whether this is the "device not present" condition, which callers
    /// treat as the keyboard being offline rather than as a failure.
    pub fn is_no_device(&self) -> (b: bool)
        ensures
            b == (self is NoDevice),
    {
        match self {
            KeyboardError::NoDevice { .. } => true,
            _ => false,
        }
    }

    /// The error's text.
    pub fn message(&self) -> (r: String)
        ensures
            r@ == error_message(*self),
    {
        let mut out: Vec<char> = Vec::new();
        match self {
            KeyboardError::NoDevice { vid, pid } => {
                push_str(&mut out, "no_device vid=");
                push_hex4(&mut out, *vid);
                push_str(&mut out, " pid=");
                push_hex4(&mut out, *pid);
            },
            KeyboardError::AmbiguousInterface => {
                push_str(&mut out, "ambiguous_interface");
            },
            KeyboardError::Open { path, cause } => {
                push_str(&mut out, "open_device path=");
                push_str(&mut out, path.as_str());
                push_str(&mut out, ": ");
                push_str(&mut out, cause.as_str());
            },
            KeyboardError::Hid { cause } => {
                push_str(&mut out, cause.as_str());
            },
            KeyboardError::WriteShort { wrote } => {
                push_str(&mut out, "write_short wrote=");
                push_decimal_usize(&mut out, *wrote);
                push_str(&mut out, " expected=33");
            },
            KeyboardError::ReadShort { read } => {
                push_str(&mut out, "read_short read=");
                push_decimal_usize(&mut out, *read);
                push_str(&mut out, " expected=32");
            },
            KeyboardError::UnexpectedResponse { bytes } => {
                push_str(&mut out, "unexpected_response bytes=[");
                let mut i: usize = 0;
                while i < bytes.len()
                    invariant
                        i <= bytes@.len(),
                        out@ == "unexpected_response bytes=["@ + hex_list(bytes@.take(i as int)),
                    decreases bytes@.len() - i,
                {
                    if i > 0 {
                        push_str(&mut out, ", ");
                    }
                    push_hex2(&mut out, bytes[i]);
                    i += 1;
                    assert(bytes@.take(i as int).drop_last() =~= bytes@.take(i - 1));
                    if i == 1 {
                        assert(hex_list(bytes@.take(i as int)) == hex2(bytes@[0]));
                    }
                    assert(out@ =~= "unexpected_response bytes=["@ + hex_list(
                        bytes@.take(i as int),
                    ));
                }
                assert(bytes@.take(bytes@.len() as int) =~= bytes@);
                push_str(&mut out, "]");
            },
            KeyboardError::FastsetTooMany { got } => {
                push_str(&mut out, "fastset_too_many got=");
                push_decimal_usize(&mut out, *got);
            },
            KeyboardError::SupportedStalled { cursor } => {
                push_str(&mut out, "supported_stalled cursor=");
                push_decimal(&mut out, *cursor as u32);
            },
        }
        proof {
            assert(out@ =~= error_message(*self));
        }
        string_from_chars(&out)
    }
}

} // verus!
