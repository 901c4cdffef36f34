//! The VialRGB sub-protocol of the Vial QMK firmware.
//!
//! Every packet is 32 bytes: byte 0 is the VIA top-level command
//! (`SET_VALUE` or `GET_VALUE`), byte 1 the VialRGB sub-command, and the
//! rest its arguments, zero-padded. The keyboard echoes bytes 0 and 1 in its
//! reply, which lets the host check that it got the right answer.
use vstd::prelude::*;


use crate::error::KeyboardError;
use crate::hid::{frame_of, send_and_read, Keyboard};

verus! {

// ── Top-level VIA command bytes ─────────────────────────────────────────────

pub const ID_LIGHTING_SET_VALUE: u8 = 0x07;
pub const ID_LIGHTING_GET_VALUE: u8 = 0x08;

// ── VialRGB GET sub-commands ────────────────────────────────────────────────

/// Request VialRGB protocol version + firmware maximum brightness.
pub const VIALRGB_GET_INFO: u8 = 0x40;
/// Request the current lighting mode/speed/HSV state.
pub const VIALRGB_GET_MODE: u8 = 0x41;
/// Request a page of supported effect IDs (paginated by cursor).
pub const VIALRGB_GET_SUPPORTED: u8 = 0x42;
/// Request the total number of addressable LEDs.
pub const VIALRGB_GET_NUMBER_LEDS: u8 = 0x43;
/// Request physical/logical info for a single LED by index.
pub const VIALRGB_GET_LED_INFO: u8 = 0x44;

// ── VialRGB SET sub-commands ────────────────────────────────────────────────
//
// The values overlap with the GET sub-commands; the top-level byte tells
// them apart.

/// Write mode, speed, and HSV to the keyboard.
pub const VIALRGB_SET_MODE: u8 = 0x41;
/// Push raw HSV values to a contiguous range of LEDs (max 9 per call).
pub const VIALRGB_DIRECT_FASTSET: u8 = 0x42;

/// At most this many LEDs fit in one fastset packet (3 bytes each).
pub const FASTSET_MAX_LEDS: usize = 9;

// ── Well-known effect IDs ───────────────────────────────────────────────────

/// Effect 0 — all lighting off.
pub const EFFECT_OFF: u16 = 0;
/// Effect 1 — DIRECT mode: each LED controlled individually by the host.
pub const EFFECT_DIRECT: u16 = 1;
/// Effect 2 — SOLID_COLOR: all LEDs show a single uniform colour.
pub const EFFECT_SOLID_COLOR: u16 = 2;

// ── Data structures ─────────────────────────────────────────────────────────

/// Current lighting state as reported by the keyboard.
#[derive(Debug, Clone, Copy, PartialEq, Eq, Structural)]
pub struct Mode {
    /// Active effect ID (see `EFFECT_*` constants).
    pub mode: u16,
    /// Animation speed: 0 = slowest, 255 = fastest.
    pub speed: u8,
    /// Hue 0–255 (wraps around the colour wheel).
    pub h: u8,
    /// Saturation 0–255 (0 = white, 255 = fully saturated).
    pub s: u8,
    /// Value / brightness 0–255.
    pub v: u8,
}

/// Firmware capabilities reported at startup.
#[derive(Debug, Clone, Copy, PartialEq, Eq, Structural)]
pub struct Info {
    /// VialRGB wire protocol version.
    pub protocol_version: u16,
    /// Compiled-in brightness ceiling.
    pub max_brightness: u8,
}

/// Physical and logical attributes of one addressable LED.
#[derive(Debug, Clone, Copy, PartialEq, Eq, Structural)]
pub struct LedInfo {
    /// Physical X position.
    pub x: u8,
    /// Physical Y position.
    pub y: u8,
    /// Bit-flags (bit 2: in the key matrix; bit 1: modifier indicator).
    pub flags: u8,
    /// Key-matrix row, `0xFF` if this LED is not in the switch matrix.
    pub matrix_row: u8,
    /// Key-matrix column, `0xFF` if this LED is not in the switch matrix.
    pub matrix_col: u8,
}

// ── Packet model ────────────────────────────────────────────────────────────

/// `n` zero bytes.
pub open spec fn zeros(n: nat) -> Seq<u8> {
    Seq::new(n, |i: int| 0u8)
}

/// A request packet: command, sub-command, arguments, zero padding to 32.
pub open spec fn packet(cmd: u8, sub: u8, args: Seq<u8>) -> Seq<u8> {
    seq![cmd, sub] + args + zeros((30 - args.len()) as nat)
}

/// Little-endian bytes of a `u16`.
pub open spec fn le16(v: u16) -> Seq<u8> {
    seq![(v % 256) as u8, (v / 256) as u8]
}

/// The `u16` stored little-endian at bytes `i` and `i + 1` of `r`.
pub open spec fn read_le16(r: Seq<u8>, i: int) -> u16 {
    (r[i] as int + 256 * r[i + 1] as int) as u16
}

/// The arguments of a SET_MODE packet.
pub open spec fn mode_args(m: Mode) -> Seq<u8> {
    le16(m.mode) + seq![m.speed, m.h, m.s, m.v]
}

/// The HSV triples of a fastset packet, three bytes each.
pub open spec fn hsv_bytes(hsvs: Seq<(u8, u8, u8)>) -> Seq<u8>
    decreases hsvs.len(),
{
    if hsvs.len() == 0 {
        Seq::empty()
    } else {
        hsv_bytes(hsvs.drop_last()) + seq![hsvs.last().0, hsvs.last().1, hsvs.last().2]
    }
}

/// The reply echoes `cmd` and `sub`.
pub open spec fn echoes(r: Seq<u8>, cmd: u8, sub: u8) -> bool {
    r[0] == cmd && r[1] == sub
}

/// `e` is the error for a reply `r` that does not echo the request: it
/// holds the reply's first 8 bytes.
pub open spec fn is_unexpected(e: KeyboardError, r: Seq<u8>) -> bool {
    e matches KeyboardError::UnexpectedResponse { bytes } && bytes@ == r.take(8)
}

/// What a GET_INFO reply says.
pub open spec fn info_of(r: Seq<u8>) -> Info {
    Info { protocol_version: read_le16(r, 2), max_brightness: r[4] }
}

/// What a GET_MODE reply says.
pub open spec fn mode_of(r: Seq<u8>) -> Mode {
    Mode { mode: read_le16(r, 2), speed: r[4], h: r[5], s: r[6], v: r[7] }
}

/// What a GET_LED_INFO reply says.
pub open spec fn led_info_of(r: Seq<u8>) -> LedInfo {
    LedInfo { x: r[2], y: r[3], flags: r[4], matrix_row: r[5], matrix_col: r[6] }
}

/// `res` is `v` when the reply echoes `cmd`/`sub`, else the echo error.
pub open spec fn checked<T>(res: Result<T, KeyboardError>, r: Seq<u8>, cmd: u8, sub: u8, v: T) -> bool {
    if echoes(r, cmd, sub) {
        res == Ok::<T, KeyboardError>(v)
    } else {
        res matches Err(e) && is_unexpected(e, r)
    }
}

/// Number of `(lo, hi)` pairs in the 30 argument bytes of a reply.
pub open spec fn page_pairs() -> int {
    15
}

/// Effect IDs of a GET_SUPPORTED reply from pair `k` on: little-endian pairs
/// starting at byte 2, up to the first `0xFFFF` filler.
pub open spec fn page_ids_from(r: Seq<u8>, k: int) -> Seq<u16>
    decreases page_pairs() - k,
{
    if k < 0 || k >= page_pairs() {
        Seq::empty()
    } else if read_le16(r, 2 + 2 * k) == 0xFFFF {
        Seq::empty()
    } else {
        seq![read_le16(r, 2 + 2 * k)] + page_ids_from(r, k + 1)
    }
}

/// Effect IDs of a GET_SUPPORTED reply.
pub open spec fn page_ids(r: Seq<u8>) -> Seq<u16> {
    page_ids_from(r, 0)
}

/// No listed ID is the `0xFFFF` filler.
pub open spec fn no_filler(ids: Seq<u16>) -> bool {
    forall|i: int| 0 <= i < ids.len() ==> #[trigger] ids[i] != 0xFFFF
}

proof fn lemma_page_ids_no_filler(r: Seq<u8>, k: int)
    ensures
        no_filler(page_ids_from(r, k)),
    decreases page_pairs() - k,
{
    if !(k < 0 || k >= page_pairs()) && read_le16(r, 2 + 2 * k) != 0xFFFF {
        lemma_page_ids_no_filler(r, k + 1);
        let tail = page_ids_from(r, k + 1);
        let all = seq![read_le16(r, 2 + 2 * k)] + tail;
        assert forall|i: int| 0 <= i < all.len() implies #[trigger] all[i] != 0xFFFF by {
            if i > 0 {
                assert(all[i] == tail[i - 1]);
            }
        }
    }
}

// ── Encoding ────────────────────────────────────────────────────────────────

/// A request with no arguments.
pub fn request(cmd: u8, sub: u8) -> (r: [u8; 32])
    ensures
        r@ == packet(cmd, sub, Seq::empty()),
{
    let mut p = [0u8; 32];
    p[0] = cmd;
    p[1] = sub;
    assert(p@ =~= packet(cmd, sub, Seq::empty()));
    p
}

/// A request whose first argument is a little-endian `u16`.
pub fn request_u16(cmd: u8, sub: u8, v: u16) -> (r: [u8; 32])
    ensures
        r@ == packet(cmd, sub, le16(v)),
{
    let mut p = [0u8; 32];
    p[0] = cmd;
    p[1] = sub;
    p[2] = (v % 256) as u8;
    p[3] = (v / 256) as u8;
    assert(p@ =~= packet(cmd, sub, le16(v)));
    p
}

/// The SET_MODE packet for `mode`, `speed` and HSV.
pub fn encode_set_mode(mode: u16, speed: u8, h: u8, s: u8, v: u8) -> (r: [u8; 32])
    ensures
        r@ == packet(
            ID_LIGHTING_SET_VALUE,
            VIALRGB_SET_MODE,
            mode_args(Mode { mode, speed, h, s, v }),
        ),
{
    let mut p = request_u16(ID_LIGHTING_SET_VALUE, VIALRGB_SET_MODE, mode);
    p[4] = speed;
    p[5] = h;
    p[6] = s;
    p[7] = v;
    assert(p@ =~= packet(
        ID_LIGHTING_SET_VALUE,
        VIALRGB_SET_MODE,
        mode_args(Mode { mode, speed, h, s, v }),
    ));
    p
}

/// The DIRECT_FASTSET packet for LEDs `first_index ..` with one HSV triple
/// each: the index (little-endian), the count, then the triples.
pub fn encode_direct_fastset(first_index: u16, hsvs: &[(u8, u8, u8)]) -> (r: [u8; 32])
    requires
        1 <= hsvs@.len() <= 9,
    ensures
        r@ == packet(
            ID_LIGHTING_SET_VALUE,
            VIALRGB_DIRECT_FASTSET,
            le16(first_index) + seq![hsvs@.len() as u8] + hsv_bytes(hsvs@),
        ),
{
    let mut p = request_u16(ID_LIGHTING_SET_VALUE, VIALRGB_DIRECT_FASTSET, first_index);
    p[4] = hsvs.len() as u8;
    let ghost head = seq![ID_LIGHTING_SET_VALUE, VIALRGB_DIRECT_FASTSET] + le16(first_index) + seq![
        hsvs@.len() as u8,
    ];
    assert(p@ =~= head + hsv_bytes(hsvs@.take(0)) + zeros(27));
    let mut k: usize = 0;
    while k < hsvs.len()
        invariant
            k <= hsvs@.len() <= 9,
            p@.len() == 32,
            head.len() == 5,
            p@ =~= head + hsv_bytes(hsvs@.take(k as int)) + zeros((27 - 3 * k) as nat),
        decreases hsvs@.len() - k,
    {
        let (h, s, v) = hsvs[k];
        let off = 5 + 3 * k;
        p[off] = h;
        p[off + 1] = s;
        p[off + 2] = v;
        assert(hsvs@.take(k + 1).drop_last() =~= hsvs@.take(k as int));
        assert(hsv_bytes(hsvs@.take(k + 1)) == hsv_bytes(hsvs@.take(k as int)) + seq![h, s, v]);
        k += 1;
        assert(p@ =~= head + hsv_bytes(hsvs@.take(k as int)) + zeros((27 - 3 * k) as nat));
    }
    assert(hsvs@.take(k as int) =~= hsvs@);
    assert(p@ =~= packet(
        ID_LIGHTING_SET_VALUE,
        VIALRGB_DIRECT_FASTSET,
        le16(first_index) + seq![hsvs@.len() as u8] + hsv_bytes(hsvs@),
    ));
    p
}

// ── Decoding ────────────────────────────────────────────────────────────────

/// Verify that the response header echoes the expected command bytes; if
/// not, the error holds the reply's first 8 bytes.
pub fn check_echo(r: &[u8; 32], expected_cmd: u8, expected_sub: u8) -> (res: Result<(), KeyboardError>)
    ensures
        checked(res, r@, expected_cmd, expected_sub, ()),
{
    if r[0] != expected_cmd || r[1] != expected_sub {
        let mut bytes: Vec<u8> = Vec::new();
        let mut i: usize = 0;
        while i < 8
            invariant
                i <= 8,
                r@.len() == 32,
                bytes@ == r@.take(i as int),
            decreases 8 - i,
        {
            bytes.push(r[i]);
            i += 1;
            assert(bytes@ =~= r@.take(i as int));
        }
        assert(bytes@ == r@.take(8));
        return Err(KeyboardError::UnexpectedResponse { bytes });
    }
    Ok(())
}

/// Decodes a GET_INFO reply.
pub fn parse_info(r: &[u8; 32]) -> (res: Result<Info, KeyboardError>)
    ensures
        checked(res, r@, ID_LIGHTING_GET_VALUE, VIALRGB_GET_INFO, info_of(r@)),
{
    check_echo(r, ID_LIGHTING_GET_VALUE, VIALRGB_GET_INFO)?;
    Ok(Info { protocol_version: r[2] as u16 + 256 * (r[3] as u16), max_brightness: r[4] })
}

/// Decodes a GET_MODE reply.
pub fn parse_mode(r: &[u8; 32]) -> (res: Result<Mode, KeyboardError>)
    ensures
        checked(res, r@, ID_LIGHTING_GET_VALUE, VIALRGB_GET_MODE, mode_of(r@)),
{
    check_echo(r, ID_LIGHTING_GET_VALUE, VIALRGB_GET_MODE)?;
    Ok(
        Mode {
            mode: r[2] as u16 + 256 * (r[3] as u16),
            speed: r[4],
            h: r[5],
            s: r[6],
            v: r[7],
        },
    )
}

/// Decodes a GET_NUMBER_LEDS reply.
pub fn parse_led_count(r: &[u8; 32]) -> (res: Result<u16, KeyboardError>)
    ensures
        checked(res, r@, ID_LIGHTING_GET_VALUE, VIALRGB_GET_NUMBER_LEDS, read_le16(r@, 2)),
{
    check_echo(r, ID_LIGHTING_GET_VALUE, VIALRGB_GET_NUMBER_LEDS)?;
    Ok(r[2] as u16 + 256 * (r[3] as u16))
}

/// Decodes a GET_LED_INFO reply.
pub fn parse_led_info(r: &[u8; 32]) -> (res: Result<LedInfo, KeyboardError>)
    ensures
        checked(res, r@, ID_LIGHTING_GET_VALUE, VIALRGB_GET_LED_INFO, led_info_of(r@)),
{
    check_echo(r, ID_LIGHTING_GET_VALUE, VIALRGB_GET_LED_INFO)?;
    Ok(LedInfo { x: r[2], y: r[3], flags: r[4], matrix_row: r[5], matrix_col: r[6] })
}

/// Decodes a GET_SUPPORTED reply into the effect IDs it lists.
pub fn parse_supported_page(r: &[u8; 32]) -> (res: Result<Vec<u16>, KeyboardError>)
    ensures
        if echoes(r@, ID_LIGHTING_GET_VALUE, VIALRGB_GET_SUPPORTED) {
            res matches Ok(ids) && ids@ == page_ids(r@)
        } else {
            res matches Err(e) && is_unexpected(e, r@)
        },
{
    check_echo(r, ID_LIGHTING_GET_VALUE, VIALRGB_GET_SUPPORTED)?;
    let mut ids: Vec<u16> = Vec::new();
    let mut k: usize = 0;
    while k < 15
        invariant
            k <= 15,
            r@.len() == 32,
            echoes(r@, ID_LIGHTING_GET_VALUE, VIALRGB_GET_SUPPORTED),
            page_ids(r@) == ids@ + page_ids_from(r@, k as int),
        decreases 15 - k,
    {
        let id = r[2 + 2 * k] as u16 + 256 * (r[3 + 2 * k] as u16);
        if id == 0xFFFF {
            assert(page_ids_from(r@, k as int) == Seq::<u16>::empty());
            assert(ids@ + Seq::<u16>::empty() =~= ids@);
            return Ok(ids);
        }
        ids.push(id);
        assert(page_ids_from(r@, k as int) == seq![id] + page_ids_from(r@, k + 1));
        k += 1;
        assert(page_ids(r@) =~= ids@ + page_ids_from(r@, k as int));
    }
    assert(page_ids_from(r@, 15) == Seq::<u16>::empty());
    assert(ids@ + Seq::<u16>::empty() =~= ids@);
    Ok(ids)
}

// ── Exchanges on the keyboard ──────────────────────────────────────────────

/// The SET_MODE packet for a mode.
pub open spec fn set_mode_packet(m: Mode) -> Seq<u8> {
    packet(ID_LIGHTING_SET_VALUE, VIALRGB_SET_MODE, mode_args(m))
}

/// The DIRECT_FASTSET packet for LEDs `first ..` with one HSV triple each.
pub open spec fn fastset_packet(first: u16, hsvs: Seq<(u8, u8, u8)>) -> Seq<u8> {
    packet(
        ID_LIGHTING_SET_VALUE,
        VIALRGB_DIRECT_FASTSET,
        le16(first) + seq![hsvs.len() as u8] + hsv_bytes(hsvs),
    )
}

/// The reply that one exchange recorded, if a complete one came.
pub open spec fn new_reply(old: Keyboard, new: Keyboard) -> Option<Seq<u8>> {
    if new.replies@.len() == old.replies@.len() + 1 {
        Some(new.replies@.last())
    } else {
        None
    }
}

/// One exchange of packet `p`: its report was written, and at most one
/// reply was recorded.
pub open spec fn exchanged(old: Keyboard, new: Keyboard, p: Seq<u8>) -> bool {
    &&& new.dev == old.dev
    &&& new.written@ == old.written@.push(frame_of(p))
    &&& (new.replies@ == old.replies@ || (new.replies@.len() == old.replies@.len() + 1
        && new.replies@.drop_last() == old.replies@ && new.replies@.last().len() == 32))
}

/// The result of one exchange whose reply is decoded by `decode`: a
/// transport error when no complete reply came; otherwise the decoded value
/// when the reply echoes `cmd`/`sub`, else the echo error.
pub open spec fn answered<T>(
    old: Keyboard,
    new: Keyboard,
    res: Result<T, KeyboardError>,
    cmd: u8,
    sub: u8,
    decode: spec_fn(Seq<u8>) -> T,
) -> bool {
    match new_reply(old, new) {
        None => res matches Err(e) && (e is Hid || e is WriteShort || e is ReadShort),
        Some(r) => checked(res, r, cmd, sub, decode(r)),
    }
}

/// One exchange of `p` whose reply echoes `cmd`/`sub`.
pub open spec fn echoed_exchange(old: Keyboard, new: Keyboard, p: Seq<u8>, cmd: u8, sub: u8) -> bool {
    &&& exchanged(old, new, p)
    &&& new_reply(old, new) is Some
    &&& echoes(new_reply(old, new)->0, cmd, sub)
}

/// Every report written between `old` and `new` got a complete reply, and
/// each reply echoes the command and sub-command of the report it answers.
pub open spec fn all_echoed(old: Keyboard, new: Keyboard) -> bool {
    let w = old.written@.len() as int;
    let m = old.replies@.len() as int;
    &&& m <= new.replies@.len()
    &&& new.written@.len() - w == new.replies@.len() - m
    &&& forall|k: int|
        0 <= k < new.replies@.len() - m ==> echoes(
            #[trigger] new.replies@[m + k],
            new.written@[w + k][1],
            new.written@[w + k][2],
        )
}

/// After one more exchange of `p`, every reply still echoes exactly when the
/// new exchange got a reply that echoes `p`'s header.
proof fn lemma_echo_step(k0: Keyboard, k1: Keyboard, k2: Keyboard, p: Seq<u8>)
    requires
        all_echoed(k0, k1),
        exchanged(k1, k2, p),
        p.len() >= 2,
    ensures
        all_echoed(k0, k2) <==> (new_reply(k1, k2) is Some && echoes(
            new_reply(k1, k2)->0,
            p[0],
            p[1],
        )),
{
    let w = k0.written@.len() as int;
    let m = k0.replies@.len() as int;
    let n1 = k1.replies@.len() - m;
    assert(k2.written@[w + n1] == frame_of(p));
    assert(frame_of(p)[1] == p[0]);
    assert(frame_of(p)[2] == p[1]);
    if new_reply(k1, k2) is Some {
        assert(k2.replies@[m + n1] == k2.replies@.last());
        assert forall|k: int| 0 <= k < n1 implies #[trigger] k2.replies@[m + k] == k1.replies@[m + k]
            && k2.written@[w + k] == k1.written@[w + k] by {
            assert(k2.replies@[m + k] == k2.replies@.drop_last()[m + k]);
        }
        if echoes(new_reply(k1, k2)->0, p[0], p[1]) {
            assert forall|k: int| 0 <= k < k2.replies@.len() - m implies echoes(
                #[trigger] k2.replies@[m + k],
                k2.written@[w + k][1],
                k2.written@[w + k][2],
            ) by {
                if k < n1 {
                    assert(k1.replies@[m + k] == k2.replies@[m + k]);
                }
            }
        } else {
            assert(!echoes(k2.replies@[m + n1], k2.written@[w + n1][1], k2.written@[w + n1][2]));
        }
    }
}

/// An exchange of `p` that succeeds exactly when its reply came and echoes
/// `p`'s header keeps every reply echoed exactly when it succeeds.
pub proof fn lemma_answered_step<T>(
    k0: Keyboard,
    k1: Keyboard,
    k2: Keyboard,
    p: Seq<u8>,
    res: Result<T, KeyboardError>,
)
    requires
        all_echoed(k0, k1),
        exchanged(k1, k2, p),
        p.len() >= 2,
        new_reply(k1, k2) is None ==> res is Err,
        new_reply(k1, k2) is Some ==> (res is Ok <==> echoes(new_reply(k1, k2)->0, p[0], p[1])),
    ensures
        res is Ok <==> all_echoed(k0, k2),
{
    lemma_echo_step(k0, k1, k2, p);
}

/// Sends `p` and reads the reply (see `send_and_read`), with the
/// bookkeeping of `exchanged`.
fn exchange(kb: &mut Keyboard, p: &[u8; 32]) -> (r: Result<[u8; 32], KeyboardError>)
    ensures
        exchanged(*old(kb), *final(kb), p@),
        match r {
            Ok(b) => new_reply(*old(kb), *final(kb)) == Some(b@),
            Err(e) => new_reply(*old(kb), *final(kb)) is None && (e is Hid || e is WriteShort
                || e is ReadShort),
        },
{
    let r = send_and_read(kb, p);
    proof {
        if let Ok(b) = r {
            assert(final(kb).replies@.drop_last() =~= old(kb).replies@);
        }
    }
    r
}

/// Read the VialRGB protocol version and firmware maximum brightness: one
/// GET_INFO exchange, decoded by `info_of`.
pub fn get_info(kb: &mut Keyboard) -> (res: Result<Info, KeyboardError>)
    ensures
        exchanged(*old(kb), *final(kb), packet(ID_LIGHTING_GET_VALUE, VIALRGB_GET_INFO, Seq::empty())),
        answered(*old(kb), *final(kb), res, ID_LIGHTING_GET_VALUE, VIALRGB_GET_INFO, |r: Seq<u8>| info_of(r)),
{
    let p = request(ID_LIGHTING_GET_VALUE, VIALRGB_GET_INFO);
    let r = exchange(kb, &p)?;
    parse_info(&r)
}

/// Read the current lighting mode, speed, and HSV values: one GET_MODE
/// exchange, decoded by `mode_of`.
pub fn get_mode(kb: &mut Keyboard) -> (res: Result<Mode, KeyboardError>)
    ensures
        exchanged(*old(kb), *final(kb), packet(ID_LIGHTING_GET_VALUE, VIALRGB_GET_MODE, Seq::empty())),
        answered(*old(kb), *final(kb), res, ID_LIGHTING_GET_VALUE, VIALRGB_GET_MODE, |r: Seq<u8>| mode_of(r)),
{
    let p = request(ID_LIGHTING_GET_VALUE, VIALRGB_GET_MODE);
    let r = exchange(kb, &p)?;
    parse_mode(&r)
}

/// Write a new lighting mode, speed, and HSV to the keyboard
/// (`EFFECT_OFF` turns the lighting off): one exchange of
/// `set_mode_packet`, which succeeds when the keyboard echoes the SET_MODE
/// header.
pub fn set_mode(kb: &mut Keyboard, mode: u16, speed: u8, h: u8, s: u8, v: u8) -> (res: Result<(), KeyboardError>)
    ensures
        exchanged(*old(kb), *final(kb), set_mode_packet(Mode { mode, speed, h, s, v })),
        answered(*old(kb), *final(kb), res, ID_LIGHTING_SET_VALUE, VIALRGB_SET_MODE, |r: Seq<u8>| ()),
{
    let p = encode_set_mode(mode, speed, h, s, v);
    let r = exchange(kb, &p)?;
    check_echo(&r, ID_LIGHTING_SET_VALUE, VIALRGB_SET_MODE)
}

/// Read the total number of individually addressable LEDs: one
/// GET_NUMBER_LEDS exchange.
pub fn get_led_count(kb: &mut Keyboard) -> (res: Result<u16, KeyboardError>)
    ensures
        exchanged(*old(kb), *final(kb), packet(ID_LIGHTING_GET_VALUE, VIALRGB_GET_NUMBER_LEDS, Seq::empty())),
        answered(*old(kb), *final(kb), res, ID_LIGHTING_GET_VALUE, VIALRGB_GET_NUMBER_LEDS, |r: Seq<u8>| read_le16(r, 2)),
{
    let p = request(ID_LIGHTING_GET_VALUE, VIALRGB_GET_NUMBER_LEDS);
    let r = exchange(kb, &p)?;
    parse_led_count(&r)
}

/// Read physical and logical info for a single LED by zero-based index: one
/// GET_LED_INFO exchange carrying the index.
pub fn get_led_info(kb: &mut Keyboard, index: u16) -> (res: Result<LedInfo, KeyboardError>)
    ensures
        exchanged(*old(kb), *final(kb), packet(ID_LIGHTING_GET_VALUE, VIALRGB_GET_LED_INFO, le16(index))),
        answered(*old(kb), *final(kb), res, ID_LIGHTING_GET_VALUE, VIALRGB_GET_LED_INFO, |r: Seq<u8>| led_info_of(r)),
{
    let p = request_u16(ID_LIGHTING_GET_VALUE, VIALRGB_GET_LED_INFO, index);
    let r = exchange(kb, &p)?;
    parse_led_info(&r)
}

/// Push HSV values to a contiguous range of LEDs with the fastset packet.
///
/// An empty range sends nothing and succeeds; more than 9 LEDs is refused
/// with `FastsetTooMany` before anything is sent; otherwise one exchange of
/// `fastset_packet`, which succeeds when the keyboard echoes its header.
pub fn direct_fastset(kb: &mut Keyboard, first_index: u16, hsvs: &[(u8, u8, u8)]) -> (res: Result<(), KeyboardError>)
    ensures
        hsvs@.len() == 0 ==> res is Ok && *final(kb) == *old(kb),
        hsvs@.len() > 9 ==> res == Err::<(), KeyboardError>(
            KeyboardError::FastsetTooMany { got: hsvs@.len() as usize },
        ) && *final(kb) == *old(kb),
        1 <= hsvs@.len() <= 9 ==> exchanged(*old(kb), *final(kb), fastset_packet(first_index, hsvs@))
            && answered(*old(kb), *final(kb), res, ID_LIGHTING_SET_VALUE, VIALRGB_DIRECT_FASTSET, |r: Seq<u8>| ()),
        res matches Err(e) ==> e is Hid || e is WriteShort || e is ReadShort
            || e is UnexpectedResponse || e is FastsetTooMany,
{
    if hsvs.len() == 0 {
        return Ok(());
    }
    if hsvs.len() > FASTSET_MAX_LEDS {
        return Err(KeyboardError::FastsetTooMany { got: hsvs.len() });
    }
    let p = encode_direct_fastset(first_index, hsvs);
    let r = exchange(kb, &p)?;
    check_echo(&r, ID_LIGHTING_SET_VALUE, VIALRGB_DIRECT_FASTSET)
}

// ── Listing supported effects ───────────────────────────────────────────────

/// Progress of listing the supported effect IDs page by page: the keyboard
/// answers each request with the IDs greater than the cursor, and the cursor
/// then moves to the last ID received.
pub struct SupportedScan {
    /// IDs received so far, in the order received.
    pub ids: Vec<u16>,
    /// Last ID seen; the next request asks for IDs after it.
    pub cursor: u16,
    /// A page without any ID has arrived: the list is complete.
    pub done: bool,
}

impl SupportedScan {
    /// A scan that has received nothing yet.
    pub fn new() -> (r: SupportedScan)
        ensures
            r.ids@ == Seq::<u16>::empty(),
            r.cursor == 0,
            !r.done,
    {
        SupportedScan { ids: Vec::new(), cursor: 0, done: false }
    }

    /// The request for the next page.
    pub fn request(&self) -> (r: [u8; 32])
        ensures
            r@ == packet(ID_LIGHTING_GET_VALUE, VIALRGB_GET_SUPPORTED, le16(self.cursor)),
    {
        request_u16(ID_LIGHTING_GET_VALUE, VIALRGB_GET_SUPPORTED, self.cursor)
    }

    /// Takes in the reply to `request`.
    ///
    /// A reply that does not echo the request is an error. A page without
    /// IDs completes the scan. Otherwise the page's IDs are appended and the
    /// cursor moves to the last of them; a page whose last ID is not past the
    /// cursor would make the listing repeat forever and is an error.
    pub fn absorb(&mut self, r: &[u8; 32]) -> (res: Result<(), KeyboardError>)
        requires
            !old(self).done,
        ensures
            !echoes(r@, ID_LIGHTING_GET_VALUE, VIALRGB_GET_SUPPORTED) ==> (res matches Err(e)
                && is_unexpected(e, r@)),
            echoes(r@, ID_LIGHTING_GET_VALUE, VIALRGB_GET_SUPPORTED) && page_ids(r@).len() == 0
                ==> res is Ok && final(self).done && final(self).ids@ == old(self).ids@
                && final(self).cursor == old(self).cursor,
            echoes(r@, ID_LIGHTING_GET_VALUE, VIALRGB_GET_SUPPORTED) && page_ids(r@).len() > 0
                && page_ids(r@).last() > old(self).cursor ==> res is Ok && !final(self).done
                && final(self).ids@ == old(self).ids@ + page_ids(r@) && final(self).cursor
                == page_ids(r@).last(),
            echoes(r@, ID_LIGHTING_GET_VALUE, VIALRGB_GET_SUPPORTED) && page_ids(r@).len() > 0
                && page_ids(r@).last() <= old(self).cursor ==> res == Err::<(), KeyboardError>(
                KeyboardError::SupportedStalled { cursor: old(self).cursor },
            ),
    {
        let page = parse_supported_page(r)?;
        if page.len() == 0 {
            self.done = true;
            return Ok(());
        }
        let last = page[page.len() - 1];
        if last <= self.cursor {
            return Err(KeyboardError::SupportedStalled { cursor: self.cursor });
        }
        let mut k: usize = 0;
        let ghost start = self.ids@;
        while k < page.len()
            invariant
                k <= page@.len(),
                self.ids@ == start + page@.take(k as int),
                !self.done,
            decreases page@.len() - k,
        {
            self.ids.push(page[k]);
            k += 1;
            assert(self.ids@ =~= start + page@.take(k as int));
        }
        assert(page@.take(page@.len() as int) =~= page@);
        self.cursor = last;
        Ok(())
    }
}

/// Effect IDs of the pages `rs`, in order.
pub open spec fn concat_pages(rs: Seq<Seq<u8>>) -> Seq<u16>
    decreases rs.len(),
{
    if rs.len() == 0 {
        Seq::empty()
    } else {
        concat_pages(rs.drop_last()) + page_ids(rs.last())
    }
}

/// The cursor after the pages `rs`: the last ID of the last page, 0 before
/// any page.
pub open spec fn cursor_after(rs: Seq<Seq<u8>>) -> u16 {
    if rs.len() == 0 || page_ids(rs.last()).len() == 0 {
        0
    } else {
        page_ids(rs.last()).last()
    }
}

/// The reports of a listing that received the pages `rs`: the `k`-th asks
/// for the IDs after the cursor that the first `k` pages leave.
pub open spec fn scan_requests(rs: Seq<Seq<u8>>) -> Seq<Seq<u8>> {
    Seq::new(
        rs.len(),
        |k: int| frame_of(packet(ID_LIGHTING_GET_VALUE, VIALRGB_GET_SUPPORTED, le16(cursor_after(rs.take(k))))),
    )
}

/// Pages that keep a listing going: each echoes GET_SUPPORTED and lists IDs
/// whose last one is past the cursor before it.
pub open spec fn pages_advance(rs: Seq<Seq<u8>>) -> bool {
    forall|k: int|
        0 <= k < rs.len() ==> echoes(#[trigger] rs[k], ID_LIGHTING_GET_VALUE, VIALRGB_GET_SUPPORTED)
            && page_ids(rs[k]).len() > 0 && page_ids(rs[k]).last() > cursor_after(rs.take(k))
}

/// A complete listing of `ids` made on the keyboard between `old` and `new`:
/// the replies received are pages that advance, then one echoed page without
/// IDs; the reports written are the requests for them (`scan_requests`);
/// and `ids` is the concatenation of the pages.
pub open spec fn lists_supported(old: Keyboard, new: Keyboard, ids: Seq<u16>) -> bool {
    let n = old.replies@.len();
    let rs = new.replies@.skip(n as int);
    &&& new.dev == old.dev
    &&& new.replies@.len() > n
    &&& new.replies@.take(n as int) == old.replies@
    &&& pages_advance(rs.drop_last())
    &&& echoes(rs.last(), ID_LIGHTING_GET_VALUE, VIALRGB_GET_SUPPORTED)
    &&& page_ids(rs.last()).len() == 0
    &&& new.written@ == old.written@ + scan_requests(rs)
    &&& ids == concat_pages(rs)
}

proof fn lemma_take_push<A>(rs: Seq<A>, r: A, k: int)
    requires
        0 <= k <= rs.len(),
    ensures
        rs.push(r).take(k) == rs.take(k),
{
    assert(rs.push(r).take(k) =~= rs.take(k));
}

proof fn lemma_scan_requests_push(rs: Seq<Seq<u8>>, r: Seq<u8>)
    ensures
        scan_requests(rs.push(r)) == scan_requests(rs).push(
            frame_of(packet(ID_LIGHTING_GET_VALUE, VIALRGB_GET_SUPPORTED, le16(cursor_after(rs)))),
        ),
{
    let a = scan_requests(rs.push(r));
    let b = scan_requests(rs).push(
        frame_of(packet(ID_LIGHTING_GET_VALUE, VIALRGB_GET_SUPPORTED, le16(cursor_after(rs)))),
    );
    assert forall|k: int| 0 <= k < a.len() implies a[k] == b[k] by {
        lemma_take_push(rs, r, k);
        if k == rs.len() {
            assert(rs.take(k) =~= rs);
        }
    }
    assert(a =~= b);
}

/// A read of the mode followed by the write of `next` of the mode read, both
/// echoed.
pub open spec fn read_then_set(old: Keyboard, new: Keyboard, next: spec_fn(Mode) -> Mode) -> bool {
    let m = old.replies@.len() as int;
    &&& new.dev == old.dev
    &&& new.replies@.len() == m + 2
    &&& new.replies@.take(m as int) == old.replies@
    &&& echoes(new.replies@[m as int], ID_LIGHTING_GET_VALUE, VIALRGB_GET_MODE)
    &&& echoes(new.replies@[m + 1], ID_LIGHTING_SET_VALUE, VIALRGB_SET_MODE)
    &&& new.written@ == old.written@ + seq![
        frame_of(packet(ID_LIGHTING_GET_VALUE, VIALRGB_GET_MODE, Seq::empty())),
        frame_of(set_mode_packet(next(mode_of(new.replies@[m as int])))),
    ]
}

/// Two echoed exchanges, GET_MODE and then SET_MODE of `next` of the mode
/// read, make `read_then_set`.
pub proof fn lemma_read_then_set(k0: Keyboard, k1: Keyboard, k2: Keyboard, next: spec_fn(Mode) -> Mode)
    requires
        echoed_exchange(k0, k1, packet(ID_LIGHTING_GET_VALUE, VIALRGB_GET_MODE, Seq::empty()), ID_LIGHTING_GET_VALUE, VIALRGB_GET_MODE),
        echoed_exchange(
            k1,
            k2,
            set_mode_packet(next(mode_of(new_reply(k0, k1)->0))),
            ID_LIGHTING_SET_VALUE,
            VIALRGB_SET_MODE,
        ),
    ensures
        read_then_set(k0, k2, next),
{
    let m = k0.replies@.len() as int;
    assert(k2.replies@[m as int] == k1.replies@[m as int]);
    assert(k2.replies@.take(m as int) =~= k0.replies@);
    assert(k2.written@ =~= k0.written@ + seq![
        frame_of(packet(ID_LIGHTING_GET_VALUE, VIALRGB_GET_MODE, Seq::empty())),
        frame_of(set_mode_packet(next(mode_of(k2.replies@[m as int])))),
    ]);
}

/// The last page received lists IDs, but none past the cursor that its
/// request asked from (bytes 3 and 4 of the report).
pub open spec fn last_page_stalls(new: Keyboard) -> bool {
    &&& page_ids(new.replies@.last()).len() > 0
    &&& page_ids(new.replies@.last()).last() <= read_le16(new.written@.last(), 3)
}

/// Enumerate all supported VialRGB effect IDs.
///
/// Requests pages (see `SupportedScan`) until the keyboard answers one
/// without IDs, and returns the IDs of all pages in the order received (see
/// `lists_supported`). None of them is the `0xFFFF` filler.
///
/// A page whose last ID does not pass the cursor it was requested with
/// would have the next request ask from that same cursor, possibly without
/// end; the listing stops there with `SupportedStalled` instead of asking
/// again.
pub fn get_supported_effects(kb: &mut Keyboard) -> (res: Result<Vec<u16>, KeyboardError>)
    ensures
        res matches Ok(ids) ==> lists_supported(*old(kb), *final(kb), ids@) && no_filler(ids@)
            && all_echoed(*old(kb), *final(kb)),
        res matches Err(e) ==> !all_echoed(*old(kb), *final(kb)) || (e is SupportedStalled
            && last_page_stalls(*final(kb))),
        res matches Err(e) ==> e is Hid || e is WriteShort || e is ReadShort
            || e is UnexpectedResponse || e is SupportedStalled,
{
    let ghost k0 = *kb;
    let ghost n = kb.replies@.len();
    let mut scan = SupportedScan::new();
    let ghost mut rs: Seq<Seq<u8>> = Seq::empty();
    assert(kb.replies@ =~= k0.replies@ + rs);
    assert(kb.written@ =~= k0.written@ + scan_requests(rs));
    while !scan.done
        invariant
            n == k0.replies@.len(),
            kb.dev == k0.dev,
            kb.replies@ == k0.replies@ + rs,
            kb.written@ == k0.written@ + scan_requests(rs),
            scan.ids@ == concat_pages(rs),
            no_filler(scan.ids@),
            !scan.done ==> pages_advance(rs) && scan.cursor == cursor_after(rs),
            scan.done ==> rs.len() > 0 && pages_advance(rs.drop_last()) && echoes(
                rs.last(),
                ID_LIGHTING_GET_VALUE,
                VIALRGB_GET_SUPPORTED,
            ) && page_ids(rs.last()).len() == 0,
            all_echoed(k0, *kb),
            k0 == *old(kb),
        decreases (if scan.done {
            0int
        } else {
            0x10000 - scan.cursor as int
        }),
    {
        let p = scan.request();
        let ghost k1 = *kb;
        proof {
            law_packet_header(ID_LIGHTING_GET_VALUE, VIALRGB_GET_SUPPORTED, le16(scan.cursor));
        }
        let r = match send_and_read(kb, &p) {
            Ok(r) => r,
            Err(e) => {
                proof {
                    lemma_echo_step(k0, k1, *kb, p@);
                }
                return Err(e);
            },
        };
        proof {
            assert(kb.replies@.drop_last() =~= k1.replies@);
            lemma_echo_step(k0, k1, *kb, p@);
        }
        let ghost before = scan.ids@;
        let ghost cur = scan.cursor;
        match scan.absorb(&r) {
            Ok(()) => {},
            Err(e) => {
                proof {
                    assert(kb.written@.last() == frame_of(p@));
                    assert(read_le16(frame_of(p@), 3) == cur);
                }
                return Err(e);
            },
        }
        proof {
            lemma_scan_requests_push(rs, r@);
            let rs2 = rs.push(r@);
            assert(rs2.drop_last() =~= rs);
            assert(kb.replies@ =~= k0.replies@ + rs2);
            assert(kb.written@ =~= k0.written@ + scan_requests(rs2));
            lemma_page_ids_no_filler(r@, 0);
            let page = page_ids(r@);
            if scan.ids@ != before {
                assert forall|i: int| 0 <= i < scan.ids@.len() implies #[trigger] scan.ids@[i] != 0xFFFF by {
                    if i >= before.len() {
                        assert(scan.ids@[i] == page[i - before.len()]);
                    }
                }
            }
            if !scan.done {
                assert forall|k: int| 0 <= k < rs2.len() implies echoes(#[trigger] rs2[k], ID_LIGHTING_GET_VALUE, VIALRGB_GET_SUPPORTED)
                    && page_ids(rs2[k]).len() > 0 && page_ids(rs2[k]).last() > cursor_after(rs2.take(k)) by {
                    lemma_take_push(rs, r@, k);
                    if k == rs.len() {
                        assert(rs.take(k) =~= rs);
                    }
                }
            }
            rs = rs2;
        }
    }
    proof {
        let rr = kb.replies@.skip(n as int);
        assert(rr =~= rs);
        assert(kb.replies@.take(n as int) =~= k0.replies@);
    }
    Ok(scan.ids)
}

// ── Filling every LED ───────────────────────────────────────────────────────

/// The fastset packets that cover `n` LEDs: packet `k` starts at LED `9k`
/// and carries `min(9, n - 9k)` LEDs.
pub open spec fn fastset_plan(n: nat) -> Seq<(nat, nat)> {
    Seq::new(
        ((n + 8) / 9) as nat,
        |k: int| ((9 * k) as nat, if n - 9 * k < 9 { (n - 9 * k) as nat } else { 9nat }),
    )
}

/// The fastset chunks for `n` LEDs, as `(first index, length)` pairs.
pub fn fastset_chunks(n: u16) -> (r: Vec<(u16, usize)>)
    ensures
        r@.len() == fastset_plan(n as nat).len(),
        forall|k: int|
            0 <= k < r@.len() ==> (#[trigger] r@[k]).0 as nat == fastset_plan(n as nat)[k].0
                && r@[k].1 as nat == fastset_plan(n as nat)[k].1,
{
    let mut r: Vec<(u16, usize)> = Vec::new();
    let total = n as usize;
    let count = (total + 8) / 9;
    let mut k: usize = 0;
    while k < count
        invariant
            total == n as usize,
            count == (total + 8) / 9,
            k <= count,
            r@.len() == k,
            forall|j: int|
                0 <= j < r@.len() ==> (#[trigger] r@[j]).0 as nat == fastset_plan(n as nat)[j].0
                    && r@[j].1 as nat == fastset_plan(n as nat)[j].1,
        decreases count - k,
    {
        let first = 9 * k;
        let chunk_len = if total - first < FASTSET_MAX_LEDS {
            total - first
        } else {
            FASTSET_MAX_LEDS
        };
        r.push((first as u16, chunk_len));
        k += 1;
    }
    r
}

/// The fastset reports that paint `n` LEDs with one HSV triple, one per
/// packet of `fastset_plan(n)`.
pub open spec fn fill_requests(n: u16, h: u8, s: u8, v: u8) -> Seq<Seq<u8>> {
    Seq::new(
        fastset_plan(n as nat).len(),
        |k: int|
            frame_of(
                fastset_packet(
                    fastset_plan(n as nat)[k].0 as u16,
                    Seq::new(fastset_plan(n as nat)[k].1, |i: int| (h, s, v)),
                ),
            ),
    )
}

/// Painting every LED: SET_MODE to DIRECT with `speed` and HSV, then
/// GET_NUMBER_LEDS, whose echoed reply gives `n`, then `fill_requests`; every
/// reply was received.
pub open spec fn fills_all(old: Keyboard, new: Keyboard, speed: u8, h: u8, s: u8, v: u8, n: u16) -> bool {
    let m = old.replies@.len() as int;
    &&& new.dev == old.dev
    &&& new.replies@.len() == m + 2 + fastset_plan(n as nat).len()
    &&& new.replies@.take(m as int) == old.replies@
    &&& echoes(new.replies@[m as int], ID_LIGHTING_SET_VALUE, VIALRGB_SET_MODE)
    &&& echoes(new.replies@[m + 1], ID_LIGHTING_GET_VALUE, VIALRGB_GET_NUMBER_LEDS)
    &&& n == read_le16(new.replies@[m + 1], 2)
    &&& new.written@ == old.written@ + seq![
        frame_of(set_mode_packet(Mode { mode: EFFECT_DIRECT, speed, h, s, v })),
        frame_of(packet(ID_LIGHTING_GET_VALUE, VIALRGB_GET_NUMBER_LEDS, Seq::empty())),
    ] + fill_requests(n, h, s, v)
}

/// Convenience wrapper: switch to DIRECT mode and set all LEDs to one colour.
///
/// Sets DIRECT mode with the given speed and HSV, reads the LED count, then
/// sends one fastset packet per chunk of `fastset_chunks` (see `fills_all`).
/// Returns the LED count.
pub fn direct_set_all(kb: &mut Keyboard, speed: u8, h: u8, s: u8, v: u8) -> (res: Result<u16, KeyboardError>)
    ensures
        res matches Ok(n) ==> fills_all(*old(kb), *final(kb), speed, h, s, v, n),
        res is Ok <==> all_echoed(*old(kb), *final(kb)),
        res matches Err(e) ==> e is Hid || e is WriteShort || e is ReadShort
            || e is UnexpectedResponse,
{
    let ghost k0 = *kb;
    let ghost m = kb.replies@.len() as int;
    let set = set_mode(kb, EFFECT_DIRECT, speed, h, s, v);
    proof {
        law_packet_header(ID_LIGHTING_SET_VALUE, VIALRGB_SET_MODE, mode_args(Mode { mode: EFFECT_DIRECT, speed, h, s, v }));
        lemma_answered_step(k0, k0, *kb, set_mode_packet(Mode { mode: EFFECT_DIRECT, speed, h, s, v }), set);
    }
    set?;
    let ghost k1 = *kb;
    let count = get_led_count(kb);
    proof {
        law_packet_header(ID_LIGHTING_GET_VALUE, VIALRGB_GET_NUMBER_LEDS, Seq::empty());
        lemma_answered_step(k0, k1, *kb, packet(ID_LIGHTING_GET_VALUE, VIALRGB_GET_NUMBER_LEDS, Seq::empty()), count);
    }
    let n = count?;
    let ghost k2 = *kb;
    let ghost head = seq![
        frame_of(set_mode_packet(Mode { mode: EFFECT_DIRECT, speed, h, s, v })),
        frame_of(packet(ID_LIGHTING_GET_VALUE, VIALRGB_GET_NUMBER_LEDS, Seq::empty())),
    ];
    proof {
        assert(k2.written@ =~= k0.written@ + head + fill_requests(n, h, s, v).take(0));
        assert(k1.replies@.len() == m + 1);
        assert(k2.replies@.len() == m + 2);
        assert(k1.replies@.drop_last() == k0.replies@);
        assert(k2.replies@.drop_last() == k1.replies@);
        assert(k2.replies@.take(m) =~= k0.replies@);
        assert(kb.replies@.take(m + 2) =~= k2.replies@);
        assert(k2.replies@[m + 1] == k2.replies@.last());
        assert(k2.replies@[m as int] == k1.replies@[m as int]);
        law_fastset_plan_covers(n as nat);
    }
    let chunks = fastset_chunks(n);
    let mut k: usize = 0;
    while k < chunks.len()
        invariant
            k <= chunks@.len(),
            chunks@.len() == fastset_plan(n as nat).len(),
            forall|j: int|
                0 <= j < chunks@.len() ==> (#[trigger] chunks@[j]).0 as nat == fastset_plan(
                    n as nat,
                )[j].0 && chunks@[j].1 as nat == fastset_plan(n as nat)[j].1,
            forall|j: int|
                0 <= j < fastset_plan(n as nat).len() ==> 1 <= (#[trigger] fastset_plan(n as nat)[j]).1 <= 9
                    && fastset_plan(n as nat)[j].0 + fastset_plan(n as nat)[j].1 <= n,
            kb.dev == k0.dev,
            kb.replies@.len() == m + 2 + k,
            kb.replies@.take(m + 2) == k2.replies@,
            k2.replies@.take(m as int) == k0.replies@,
            k2.replies@.len() == m + 2,
            echoes(k2.replies@[m as int], ID_LIGHTING_SET_VALUE, VIALRGB_SET_MODE),
            echoes(k2.replies@[m + 1], ID_LIGHTING_GET_VALUE, VIALRGB_GET_NUMBER_LEDS),
            n == read_le16(k2.replies@[m + 1], 2),
            kb.written@ == k0.written@ + head + fill_requests(n, h, s, v).take(k as int),
            all_echoed(k0, *kb),
            k0 == *old(kb),
        decreases chunks@.len() - k,
    {
        let (first, len) = chunks[k];
        assert(chunks@[k as int].1 as nat == fastset_plan(n as nat)[k as int].1);
        let mut hsvs: Vec<(u8, u8, u8)> = Vec::new();
        let mut j: usize = 0;
        while j < len
            invariant
                j <= len <= 9,
                hsvs@ == Seq::new(j as nat, |i: int| (h, s, v)),
            decreases len - j,
        {
            hsvs.push((h, s, v));
            j += 1;
            assert(hsvs@ =~= Seq::new(j as nat, |i: int| (h, s, v)));
        }
        let ghost before = *kb;
        let sent = direct_fastset(kb, first, &hsvs);
        proof {
            lemma_answered_step(k0, before, *kb, fastset_packet(first, hsvs@), sent);
        }
        sent?;
        proof {
            assert(first == fastset_plan(n as nat)[k as int].0 as u16);
            assert(fill_requests(n, h, s, v).take(k + 1) =~= fill_requests(n, h, s, v).take(k as int).push(
                frame_of(fastset_packet(first, hsvs@)),
            ));
            assert(kb.replies@.take(m + 2) =~= before.replies@.take(m + 2));
        }
        k += 1;
    }
    proof {
        assert(fill_requests(n, h, s, v).take(k as int) =~= fill_requests(n, h, s, v));
        assert(kb.replies@.take(m as int) =~= k2.replies@.take(m as int));
        assert(kb.replies@[m as int] == k2.replies@[m as int]);
        assert(kb.replies@[m + 1] == k2.replies@[m + 1]);
    }
    Ok(n)
}

// ── Laws ────────────────────────────────────────────────────────────────────

/// Little-endian encoding of a `u16` reads back as the same value.
pub proof fn law_le16_round_trip(v: u16)
    ensures
        read_le16(le16(v), 0) == v,
{
}

/// What SET_MODE writes is what GET_MODE reads back: a GET_MODE reply that
/// carries the argument bytes of a SET_MODE packet decodes to the mode that
/// was set.
pub proof fn law_set_mode_then_get_mode(m: Mode)
    ensures
        mode_of(packet(ID_LIGHTING_GET_VALUE, VIALRGB_GET_MODE, mode_args(m))) == m,
{
    let p = packet(ID_LIGHTING_GET_VALUE, VIALRGB_GET_MODE, mode_args(m));
    assert(p[2] == (m.mode % 256) as u8);
    assert(p[3] == (m.mode / 256) as u8);
    assert(p[4] == m.speed);
    assert(p[5] == m.h);
    assert(p[6] == m.s);
    assert(p[7] == m.v);
}

/// Every request packet is 32 bytes and starts with its command and
/// sub-command.
pub proof fn law_packet_header(cmd: u8, sub: u8, args: Seq<u8>)
    requires
        args.len() <= 30,
    ensures
        packet(cmd, sub, args).len() == 32,
        packet(cmd, sub, args)[0] == cmd,
        packet(cmd, sub, args)[1] == sub,
        packet(cmd, sub, args).subrange(2, 2 + args.len() as int) == args,
        forall|i: int| 2 + args.len() <= i < 32 ==> #[trigger] packet(cmd, sub, args)[i] == 0,
{
    assert(packet(cmd, sub, args).subrange(2, 2 + args.len() as int) =~= args);
}

/// The fastset chunks cover LEDs `0..n` exactly once, in order, with
/// `ceil(n / 9)` packets of one to nine LEDs each.
pub proof fn law_fastset_plan_covers(n: nat)
    ensures
        fastset_plan(n).len() == (n + 8) / 9,
        n > 0 ==> fastset_plan(n)[0].0 == 0,
        forall|k: int|
            0 <= k < fastset_plan(n).len() ==> 1 <= (#[trigger] fastset_plan(n)[k]).1 <= 9
                && fastset_plan(n)[k].0 + fastset_plan(n)[k].1 <= n,
        forall|k: int|
            0 <= k < fastset_plan(n).len() - 1 ==> #[trigger] fastset_plan(n)[k + 1].0 == fastset_plan(
                n,
            )[k].0 + fastset_plan(n)[k].1,
        n > 0 ==> fastset_plan(n).last().0 + fastset_plan(n).last().1 == n,
{
}

/// The bytes of HSV triples: three per LED, in order.
pub proof fn law_hsv_bytes_layout(hsvs: Seq<(u8, u8, u8)>)
    ensures
        hsv_bytes(hsvs).len() == 3 * hsvs.len(),
        forall|j: int|
            0 <= j < hsvs.len() ==> hsv_bytes(hsvs)[3 * j] == (#[trigger] hsvs[j]).0
                && hsv_bytes(hsvs)[3 * j + 1] == hsvs[j].1 && hsv_bytes(hsvs)[3 * j + 2] == hsvs[j].2,
    decreases hsvs.len(),
{
    if hsvs.len() > 0 {
        let init = hsvs.drop_last();
        law_hsv_bytes_layout(init);
        assert forall|j: int| 0 <= j < hsvs.len() implies hsv_bytes(hsvs)[3 * j] == (#[trigger] hsvs[j]).0
            && hsv_bytes(hsvs)[3 * j + 1] == hsvs[j].1 && hsv_bytes(hsvs)[3 * j + 2] == hsvs[j].2 by {
            if j < init.len() {
                assert(hsvs[j] == init[j]);
            }
        }
    }
}

/// Where a SET_MODE report carries the mode: report ID 0, command and
/// sub-command, the effect ID little-endian at bytes 3 and 4, then speed,
/// H, S and V at bytes 5 to 8.
pub proof fn law_set_mode_report_layout(m: Mode)
    ensures
        frame_of(set_mode_packet(m)).len() == 33,
        frame_of(set_mode_packet(m))[0] == 0,
        frame_of(set_mode_packet(m))[1] == ID_LIGHTING_SET_VALUE,
        frame_of(set_mode_packet(m))[2] == VIALRGB_SET_MODE,
        read_le16(frame_of(set_mode_packet(m)), 3) == m.mode,
        frame_of(set_mode_packet(m))[5] == m.speed,
        frame_of(set_mode_packet(m))[6] == m.h,
        frame_of(set_mode_packet(m))[7] == m.s,
        frame_of(set_mode_packet(m))[8] == m.v,
{
    let w = frame_of(set_mode_packet(m));
    law_packet_header(ID_LIGHTING_SET_VALUE, VIALRGB_SET_MODE, mode_args(m));
    assert(w[3] == (m.mode % 256) as u8);
    assert(w[4] == (m.mode / 256) as u8);
}

/// Where a fastset report carries its LEDs: the first LED index
/// little-endian at bytes 3 and 4, the number of LEDs at byte 5, then one
/// H, S, V triple per LED from byte 6.
pub proof fn law_fastset_report_layout(first: u16, hsvs: Seq<(u8, u8, u8)>)
    requires
        1 <= hsvs.len() <= 9,
    ensures
        frame_of(fastset_packet(first, hsvs)).len() == 33,
        frame_of(fastset_packet(first, hsvs))[1] == ID_LIGHTING_SET_VALUE,
        frame_of(fastset_packet(first, hsvs))[2] == VIALRGB_DIRECT_FASTSET,
        read_le16(frame_of(fastset_packet(first, hsvs)), 3) == first,
        frame_of(fastset_packet(first, hsvs))[5] == hsvs.len(),
        forall|j: int|
            0 <= j < hsvs.len() ==> frame_of(fastset_packet(first, hsvs))[6 + 3 * j] == (#[trigger] hsvs[j]).0
                && frame_of(fastset_packet(first, hsvs))[7 + 3 * j] == hsvs[j].1
                && frame_of(fastset_packet(first, hsvs))[8 + 3 * j] == hsvs[j].2,
{
    law_hsv_bytes_layout(hsvs);
    let args = le16(first) + seq![hsvs.len() as u8] + hsv_bytes(hsvs);
    law_packet_header(ID_LIGHTING_SET_VALUE, VIALRGB_DIRECT_FASTSET, args);
    let w = frame_of(fastset_packet(first, hsvs));
    let p = fastset_packet(first, hsvs);
    assert forall|i: int| 0 <= i < args.len() implies #[trigger] p[2 + i] == args[i] by {
        assert(p.subrange(2, 2 + args.len() as int)[i] == args[i]);
    }
    assert(w[3] == (first % 256) as u8);
    assert(w[4] == (first / 256) as u8);
    assert(w[5] == args[2]);
    assert forall|j: int| 0 <= j < hsvs.len() implies w[6 + 3 * j] == (#[trigger] hsvs[j]).0
        && w[7 + 3 * j] == hsvs[j].1 && w[8 + 3 * j] == hsvs[j].2 by {
        assert(p[2 + (3 + 3 * j)] == args[3 + 3 * j]);
        assert(p[2 + (4 + 3 * j)] == args[4 + 3 * j]);
        assert(p[2 + (5 + 3 * j)] == args[5 + 3 * j]);
    }
}

/// The H, S, V triple of LED `j` in a fastset report.
pub open spec fn led_triple(report: Seq<u8>, j: int) -> (u8, u8, u8) {
    (report[6 + 3 * j], report[7 + 3 * j], report[8 + 3 * j])
}

/// LED `i` is among those a fastset report carries.
pub open spec fn report_covers(report: Seq<u8>, i: int) -> bool {
    read_le16(report, 3) <= i < read_le16(report, 3) + report[5]
}

/// The LEDs that fastset report `k` of a fill of `n` LEDs carries: nine,
/// or the rest for the last report.
pub open spec fn fill_count(n: u16, k: int) -> int {
    if n - 9 * k < 9 {
        n - 9 * k
    } else {
        9
    }
}

/// Painting every LED: the DIRECT mode is written with the given speed and
/// HSV, then `ceil(n / 9)` fastset reports follow; report `k` starts at LED
/// `9k` and carries `fill_count(n, k)` LEDs, each with the given H, S and V;
/// so every LED below `n` lies in exactly one report, the one numbered
/// `i / 9`.
pub proof fn law_fill_paints_every_led(old: Keyboard, new: Keyboard, speed: u8, h: u8, s: u8, v: u8, n: u16)
    requires
        fills_all(old, new, speed, h, s, v, n),
    ensures
        new.written@.len() == old.written@.len() + 2 + (n + 8) / 9,
        read_le16(new.written@[old.written@.len() as int], 3) == EFFECT_DIRECT,
        new.written@[old.written@.len() as int][5] == speed,
        new.written@[old.written@.len() as int][6] == h,
        new.written@[old.written@.len() as int][7] == s,
        new.written@[old.written@.len() as int][8] == v,
        new.written@[old.written@.len() + 1int][1] == ID_LIGHTING_GET_VALUE,
        new.written@[old.written@.len() + 1int][2] == VIALRGB_GET_NUMBER_LEDS,
        n == read_le16(new.replies@[old.replies@.len() + 1int], 2),
        forall|k: int|
            0 <= k < (n + 8) / 9 ==> read_le16(#[trigger] new.written@[old.written@.len() + 2 + k], 3)
                == 9 * k && new.written@[old.written@.len() + 2 + k][5] == fill_count(n, k),
        forall|k: int, j: int|
            0 <= k < (n + 8) / 9 && 0 <= j < fill_count(n, k) ==> #[trigger] led_triple(
                new.written@[old.written@.len() + 2 + k],
                j,
            ) == (h, s, v),
        forall|i: int, k: int|
            0 <= i < n && 0 <= k < (n + 8) / 9 ==> (#[trigger] report_covers(
                new.written@[old.written@.len() + 2 + k],
                i,
            ) <==> k == i / 9),
{
    let w = old.written@.len() as int;
    let plan = fastset_plan(n as nat);
    law_fastset_plan_covers(n as nat);
    law_set_mode_report_layout(Mode { mode: EFFECT_DIRECT, speed, h, s, v });
    assert(new.written@[w] == frame_of(set_mode_packet(Mode { mode: EFFECT_DIRECT, speed, h, s, v })));
    assert(new.written@[w + 1] == frame_of(packet(ID_LIGHTING_GET_VALUE, VIALRGB_GET_NUMBER_LEDS, Seq::empty())));
    assert forall|k: int| 0 <= k < (n + 8) / 9 implies read_le16(#[trigger] new.written@[w + 2 + k], 3) == 9 * k
        && new.written@[w + 2 + k][5] == fill_count(n, k) && (forall|j: int|
        0 <= j < fill_count(n, k) ==> #[trigger] led_triple(new.written@[w + 2 + k], j) == (h, s, v)) by {
        let hsvs = Seq::new(plan[k].1, |i: int| (h, s, v));
        assert(new.written@[w + 2 + k] == fill_requests(n, h, s, v)[k]);
        assert(plan[k].0 == 9 * k);
        assert(plan[k].1 == fill_count(n, k));
        law_fastset_report_layout(plan[k].0 as u16, hsvs);
        assert forall|j: int| 0 <= j < fill_count(n, k) implies #[trigger] led_triple(new.written@[w + 2 + k], j)
            == (h, s, v) by {
            assert(hsvs[j] == (h, s, v));
        }
    }
    assert forall|i: int, k: int| 0 <= i < n && 0 <= k < (n + 8) / 9 implies (#[trigger] report_covers(
        new.written@[w + 2 + k],
        i,
    ) <==> k == i / 9) by {
        assert(read_le16(new.written@[w + 2 + k], 3) == 9 * k);
        if n - 9 * k < 9 {
            assert(9 * k <= i < n <==> k == i / 9) by (nonlinear_arith)
                requires
                    0 <= i < n,
                    n - 9 * k < 9,
                    0 <= k,
            ;
        } else {
            assert(9 * k <= i < 9 * k + 9 <==> k == i / 9) by (nonlinear_arith)
                requires
                    0 <= i,
            ;
        }
    }
}

} // verus!
