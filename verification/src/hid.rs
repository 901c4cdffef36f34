//! USB HID transport: picking the VIA/Vial RAW HID interface and exchanging
//! 32-byte reports with it.
use vstd::prelude::*;

use hidapi::{HidApi, HidDevice, HidError};

use crate::error::KeyboardError;
use crate::text::{contains, contains_seq, eq_chars, chars_of};

verus! {

// ── Outside types ───────────────────────────────────────────────────────────

/// The hidapi context; it caches the list of attached HID interfaces.
#[verifier::external_type_specification]
#[verifier::external_body]
pub struct ExHidApi(HidApi);

/// An open HID interface.
#[verifier::external_type_specification]
#[verifier::external_body]
pub struct ExHidDevice(HidDevice);

/// An error reported by hidapi.
#[verifier::external_type_specification]
#[verifier::external_body]
pub struct ExHidError(HidError);

// ── VIA/Vial RAW HID USB descriptors ────────────────────────────────────────

/// HID Usage Page that identifies the Vial RAW HID interface.
pub const USAGE_PAGE: u16 = 0xFF60;

/// HID Usage within `USAGE_PAGE` that identifies the Vial RAW HID interface.
pub const USAGE: u16 = 0x0061;

// ── Device information ──────────────────────────────────────────────────────

/// Minimal metadata about a HID interface of the keyboard.
#[derive(Debug, Clone)]
pub struct CandidateInfo {
    pub interface: i32,
    pub usage_page: u16,
    pub usage: u16,
    pub serial: Option<String>,
    pub product: Option<String>,
    pub path: String,
}

/// One entry of the HID interface list, as plain values.
#[derive(Debug, Clone)]
pub struct DeviceEntry {
    pub vendor_id: u16,
    pub product_id: u16,
    pub info: CandidateInfo,
}

/// The interfaces that a hidapi context has listed, in its order.
pub uninterp spec fn hid_device_entries(api: HidApi) -> Seq<DeviceEntry>;

/// Reads the interface list that `api` holds (`HidApi::device_list`), each
/// entry converted to plain values: the path by `to_string_lossy`, the serial
/// number and product string as hidapi decoded them.
#[verifier::external_body]
fn device_entries(api: &HidApi) -> (r: Vec<DeviceEntry>)
    ensures
        r@ == hid_device_entries(*api),
{
    api.device_list().map(|d| DeviceEntry {
        vendor_id: d.vendor_id(),
        product_id: d.product_id(),
        info: CandidateInfo {
            interface: d.interface_number(),
            usage_page: d.usage_page(),
            usage: d.usage(),
            serial: d.serial_number().map(str::to_owned),
            product: d.product_string().map(str::to_owned),
            path: d.path().to_string_lossy().into_owned(),
        },
    }).collect()
}

/// Opens the `index`-th interface of the list that `api` holds
/// (`DeviceInfo::open_device`) and hands the handle back as a keyboard with
/// nothing exchanged yet, marked as opened from `index`. Whether it opens
/// depends on the system, so success is not stated.
#[verifier::external_body]
fn open_listed_device(api: &HidApi, index: usize) -> (r: Result<Keyboard, HidError>)
    requires
        index < hid_device_entries(*api).len(),
    ensures
        r matches Ok(k) ==> is_fresh(k) && k.opened@ == index,
{
    match api.device_list().nth(index).unwrap().open_device(api) {
        Ok(dev) => Ok(
            Keyboard {
                dev,
                opened: Ghost(index as int),
                written: Ghost(Seq::empty()),
                replies: Ghost(Seq::empty()),
            },
        ),
        Err(e) => Err(e),
    }
}

/// The text of a hidapi error (`Display`). The error is opaque here, so
/// nothing is stated of the text.
#[verifier::external_body]
fn hid_error_text(e: &HidError) -> String {
    e.to_string()
}

/// Writes a report (`HidDevice::write`); the count it returns comes from the
/// device, so nothing is stated of it.
#[verifier::external_body]
fn hid_write(dev: &HidDevice, data: &[u8]) -> (r: Result<usize, HidError>) {
    dev.write(data)
}

/// Reads a report with a timeout in milliseconds (`HidDevice::read_timeout`);
/// the bytes and the count come from the device, so nothing is stated of them.
#[verifier::external_body]
fn hid_read_timeout(dev: &HidDevice, buf: &mut [u8; 32], timeout: i32) -> (r: Result<usize, HidError>) {
    dev.read_timeout(buf, timeout)
}

// ── Interface selection ─────────────────────────────────────────────────────

/// `e` belongs to the keyboard `vid`/`pid` and, when a serial filter is
/// given, carries exactly that serial number.
pub open spec fn is_candidate(e: DeviceEntry, vid: u16, pid: u16, serial: Option<Seq<char>>) -> bool {
    &&& e.vendor_id == vid
    &&& e.product_id == pid
    &&& match serial {
        Some(sf) => e.info.serial is Some && e.info.serial->0@ == sf,
        None => true,
    }
}

/// Indices of the entries that are candidates, in list order.
pub open spec fn candidate_indices(
    entries: Seq<DeviceEntry>,
    vid: u16,
    pid: u16,
    serial: Option<Seq<char>>,
) -> Seq<int>
    decreases entries.len(),
{
    if entries.len() == 0 {
        Seq::empty()
    } else {
        let rest = candidate_indices(entries.drop_last(), vid, pid, serial);
        if is_candidate(entries.last(), vid, pid, serial) {
            rest.push(entries.len() - 1)
        } else {
            rest
        }
    }
}

/// Heuristic 1: the interface has the Vial RAW HID usage page and usage.
pub open spec fn is_raw_hid_usage(e: DeviceEntry) -> bool {
    e.info.usage_page == USAGE_PAGE && e.info.usage == USAGE
}

/// Heuristic 2: interface number 1 (`MI_01` on Windows).
pub open spec fn is_interface_one(e: DeviceEntry) -> bool {
    e.info.interface == 1
}

/// Heuristic 3: the path mentions `MI_01`.
pub open spec fn path_mentions_mi01(e: DeviceEntry) -> bool {
    contains_seq(e.info.path@, "MI_01"@)
}

/// The first index in `c` whose entry satisfies `p`.
pub open spec fn first_where(
    entries: Seq<DeviceEntry>,
    c: Seq<int>,
    p: spec_fn(DeviceEntry) -> bool,
) -> Option<int>
    decreases c.len(),
{
    if c.len() == 0 {
        None
    } else if p(entries[c[0]]) {
        Some(c[0])
    } else {
        first_where(entries, c.drop_first(), p)
    }
}

/// Why no interface was chosen.
#[derive(Debug, Clone, Copy, PartialEq, Eq)]
pub enum SelectError {
    NoDevice,
    Ambiguous,
}

/// Which interface `open_device` opens: among the candidates, the first with
/// the RAW HID usage; else the first with interface number 1; else the first
/// whose path mentions `MI_01`; else the only candidate. No candidate at all
/// is `NoDevice`; several with none of these marks is `Ambiguous`.
pub open spec fn select_spec(
    entries: Seq<DeviceEntry>,
    vid: u16,
    pid: u16,
    serial: Option<Seq<char>>,
) -> Result<int, SelectError> {
    let c = candidate_indices(entries, vid, pid, serial);
    if c.len() == 0 {
        Err(SelectError::NoDevice)
    } else if first_where(entries, c, |e: DeviceEntry| is_raw_hid_usage(e)) is Some {
        Ok(first_where(entries, c, |e: DeviceEntry| is_raw_hid_usage(e))->0)
    } else if first_where(entries, c, |e: DeviceEntry| is_interface_one(e)) is Some {
        Ok(first_where(entries, c, |e: DeviceEntry| is_interface_one(e))->0)
    } else if first_where(entries, c, |e: DeviceEntry| path_mentions_mi01(e)) is Some {
        Ok(first_where(entries, c, |e: DeviceEntry| path_mentions_mi01(e))->0)
    } else if c.len() == 1 {
        Ok(c[0])
    } else {
        Err(SelectError::Ambiguous)
    }
}

/// The serial filter as a character sequence.
pub open spec fn serial_view(serial: Option<&str>) -> Option<Seq<char>> {
    match serial {
        Some(s) => Some(s@),
        None => None,
    }
}

proof fn lemma_candidate_indices_bounds(entries: Seq<DeviceEntry>, vid: u16, pid: u16, serial: Option<Seq<char>>)
    ensures
        forall|k: int|
            0 <= k < candidate_indices(entries, vid, pid, serial).len() ==> 0 <= #[trigger] candidate_indices(
                entries,
                vid,
                pid,
                serial,
            )[k] < entries.len(),
    decreases entries.len(),
{
    if entries.len() > 0 {
        lemma_candidate_indices_bounds(entries.drop_last(), vid, pid, serial);
        let rest = candidate_indices(entries.drop_last(), vid, pid, serial);
        let all = candidate_indices(entries, vid, pid, serial);
        assert forall|k: int| 0 <= k < all.len() implies 0 <= #[trigger] all[k] < entries.len() by {
            if k < rest.len() {
                assert(all[k] == rest[k]);
            }
        }
    }
}

proof fn lemma_first_where_in(entries: Seq<DeviceEntry>, c: Seq<int>, p: spec_fn(DeviceEntry) -> bool)
    ensures
        first_where(entries, c, p) matches Some(i) ==> c.contains(i),
    decreases c.len(),
{
    if c.len() > 0 && !p(entries[c[0]]) {
        lemma_first_where_in(entries, c.drop_first(), p);
        if let Some(i) = first_where(entries, c.drop_first(), p) {
            let k = choose|k: int| 0 <= k < c.drop_first().len() && c.drop_first()[k] == i;
            assert(c[k + 1] == i);
        }
    }
}

/// Whether `e`'s serial equals the filter.
fn serial_matches(e: &DeviceEntry, serial: Option<&str>) -> (b: bool)
    ensures
        b == match serial_view(serial) {
            Some(sf) => e.info.serial is Some && e.info.serial->0@ == sf,
            None => true,
        },
{
    match serial {
        None => true,
        Some(sf) => match &e.info.serial {
            None => false,
            Some(s) => {
                let a = chars_of(s.as_str());
                let b = chars_of(sf);
                eq_chars(&a, &b)
            },
        },
    }
}

/// Indices of the entries that belong to `vid`/`pid` and pass the serial
/// filter, in list order.
pub fn candidate_list(entries: &Vec<DeviceEntry>, vid: u16, pid: u16, serial: Option<&str>) -> (r: Vec<usize>)
    ensures
        r@.len() == candidate_indices(entries@, vid, pid, serial_view(serial)).len(),
        forall|k: int|
            0 <= k < r@.len() ==> r@[k] as int == #[trigger] candidate_indices(
                entries@,
                vid,
                pid,
                serial_view(serial),
            )[k],
{
    let mut r: Vec<usize> = Vec::new();
    let mut i: usize = 0;
    while i < entries.len()
        invariant
            i <= entries@.len(),
            r@.len() == candidate_indices(entries@.take(i as int), vid, pid, serial_view(serial)).len(),
            forall|k: int|
                0 <= k < r@.len() ==> r@[k] as int == #[trigger] candidate_indices(
                    entries@.take(i as int),
                    vid,
                    pid,
                    serial_view(serial),
                )[k],
        decreases entries@.len() - i,
    {
        let e = &entries[i];
        let keep = e.vendor_id == vid && e.product_id == pid && serial_matches(e, serial);
        assert(entries@.take(i + 1).drop_last() =~= entries@.take(i as int));
        assert(entries@.take(i + 1).last() == entries@[i as int]);
        if keep {
            r.push(i);
        }
        i += 1;
    }
    assert(entries@.take(entries@.len() as int) =~= entries@);
    r
}

/// The first index of `c` whose entry has the RAW HID usage (mode 0),
/// interface number 1 (mode 1) or a path mentioning `MI_01` (mode 2).
fn first_marked(entries: &Vec<DeviceEntry>, c: &Vec<usize>, mode: u8, ghost_c: Ghost<Seq<int>>) -> (r: Option<usize>)
    requires
        mode < 3,
        c@.len() == ghost_c@.len(),
        forall|k: int| 0 <= k < c@.len() ==> c@[k] as int == ghost_c@[k],
        forall|k: int| 0 <= k < c@.len() ==> c@[k] < entries@.len(),
    ensures
        r matches Some(i) ==> first_where(
            entries@,
            ghost_c@,
            if mode == 0 {
                |e: DeviceEntry| is_raw_hid_usage(e)
            } else if mode == 1 {
                |e: DeviceEntry| is_interface_one(e)
            } else {
                |e: DeviceEntry| path_mentions_mi01(e)
            },
        ) == Some(i as int),
        r is None ==> first_where(
            entries@,
            ghost_c@,
            if mode == 0 {
                |e: DeviceEntry| is_raw_hid_usage(e)
            } else if mode == 1 {
                |e: DeviceEntry| is_interface_one(e)
            } else {
                |e: DeviceEntry| path_mentions_mi01(e)
            },
        ) is None,
{
    let ghost p = if mode == 0 {
        |e: DeviceEntry| is_raw_hid_usage(e)
    } else if mode == 1 {
        |e: DeviceEntry| is_interface_one(e)
    } else {
        |e: DeviceEntry| path_mentions_mi01(e)
    };
    let mi01 = chars_of("MI_01");
    let mut k: usize = 0;
    assert(ghost_c@.skip(0) =~= ghost_c@);
    while k < c.len()
        invariant
            k <= c@.len(),
            c@.len() == ghost_c@.len(),
            forall|j: int| 0 <= j < c@.len() ==> c@[j] as int == ghost_c@[j],
            forall|j: int| 0 <= j < c@.len() ==> c@[j] < entries@.len(),
            mi01@ == "MI_01"@,
            mode < 3,
            p == (if mode == 0 {
                |e: DeviceEntry| is_raw_hid_usage(e)
            } else if mode == 1 {
                |e: DeviceEntry| is_interface_one(e)
            } else {
                |e: DeviceEntry| path_mentions_mi01(e)
            }),
            first_where(entries@, ghost_c@, p) == first_where(entries@, ghost_c@.skip(k as int), p),
        decreases c@.len() - k,
    {
        let e = &entries[c[k]];
        let hit = if mode == 0 {
            e.info.usage_page == USAGE_PAGE && e.info.usage == USAGE
        } else if mode == 1 {
            e.info.interface == 1
        } else {
            let path = chars_of(e.info.path.as_str());
            contains(&path, &mi01)
        };
        assert(ghost_c@.skip(k as int)[0] == c@[k as int] as int);
        assert(hit == p(entries@[c@[k as int] as int]));
        if hit {
            return Some(c[k]);
        }
        assert(ghost_c@.skip(k as int).drop_first() =~= ghost_c@.skip(k + 1));
        k += 1;
    }
    assert(ghost_c@.skip(k as int).len() == 0);
    None
}

/// Picks the interface to open among `entries` (see `select_spec`).
pub fn select_interface(entries: &Vec<DeviceEntry>, vid: u16, pid: u16, serial: Option<&str>) -> (r: Result<usize, SelectError>)
    ensures
        match select_spec(entries@, vid, pid, serial_view(serial)) {
            Ok(i) => r == Ok::<usize, SelectError>(i as usize),
            Err(e) => r == Err::<usize, SelectError>(e),
        },
        r matches Ok(i) ==> i < entries@.len(),
        select_spec(entries@, vid, pid, serial_view(serial)) matches Ok(i) ==> 0 <= i < entries@.len(),
{
    let c = candidate_list(entries, vid, pid, serial);
    let ghost gc = candidate_indices(entries@, vid, pid, serial_view(serial));
    proof {
        lemma_candidate_indices_bounds(entries@, vid, pid, serial_view(serial));
        lemma_first_where_in(entries@, gc, |e: DeviceEntry| is_raw_hid_usage(e));
        lemma_first_where_in(entries@, gc, |e: DeviceEntry| is_interface_one(e));
        lemma_first_where_in(entries@, gc, |e: DeviceEntry| path_mentions_mi01(e));
    }
    assert forall|k: int| 0 <= k < c@.len() implies c@[k] < entries@.len() by {
        assert(c@[k] as int == gc[k]);
    }
    if c.len() == 0 {
        return Err(SelectError::NoDevice);
    }
    if let Some(i) = first_marked(entries, &c, 0, Ghost(gc)) {
        return Ok(i);
    }
    if let Some(i) = first_marked(entries, &c, 1, Ghost(gc)) {
        return Ok(i);
    }
    if let Some(i) = first_marked(entries, &c, 2, Ghost(gc)) {
        return Ok(i);
    }
    if c.len() == 1 {
        assert(c@[0] as int == gc[0]);
        return Ok(c[0]);
    }
    Err(SelectError::Ambiguous)
}

/// The candidate view of an entry.
pub open spec fn candidate_of(e: DeviceEntry) -> CandidateInfo {
    e.info
}

/// Return information about every HID interface matching `vid`/`pid`, in
/// the order that the HID library lists them.
pub fn list_candidates(api: &HidApi, vid: u16, pid: u16) -> (r: Vec<CandidateInfo>)
    ensures
        r@.len() == candidate_indices(hid_device_entries(*api), vid, pid, None).len(),
        forall|k: int|
            0 <= k < r@.len() ==> r@[k] == candidate_of(
                hid_device_entries(*api)[#[trigger] candidate_indices(
                    hid_device_entries(*api),
                    vid,
                    pid,
                    None,
                )[k]],
            ),
{
    let entries = device_entries(api);
    let c = candidate_list(&entries, vid, pid, None);
    proof {
        lemma_candidate_indices_bounds(entries@, vid, pid, None);
    }
    let mut r: Vec<CandidateInfo> = Vec::new();
    let mut k: usize = 0;
    while k < c.len()
        invariant
            entries@ == hid_device_entries(*api),
            k <= c@.len(),
            c@.len() == candidate_indices(entries@, vid, pid, None).len(),
            forall|j: int| 0 <= j < c@.len() ==> c@[j] as int == #[trigger] candidate_indices(entries@, vid, pid, None)[j],
            forall|j: int| 0 <= j < c@.len() ==> 0 <= #[trigger] candidate_indices(entries@, vid, pid, None)[j] < entries@.len(),
            r@.len() == k,
            forall|j: int|
                0 <= j < k ==> r@[j] == candidate_of(
                    entries@[#[trigger] candidate_indices(entries@, vid, pid, None)[j]],
                ),
        decreases c@.len() - k,
    {
        assert(c@[k as int] as int == candidate_indices(entries@, vid, pid, None)[k as int]);
        let e = &entries[c[k]];
        r.push(clone_candidate(&e.info));
        k += 1;
    }
    r
}

/// A field-by-field copy of a candidate.
pub fn clone_candidate(c: &CandidateInfo) -> (r: CandidateInfo)
    ensures
        r == *c,
{
    CandidateInfo {
        interface: c.interface,
        usage_page: c.usage_page,
        usage: c.usage,
        serial: clone_opt_string(&c.serial),
        product: clone_opt_string(&c.product),
        path: c.path.clone(),
    }
}

/// A copy of an optional string.
pub fn clone_opt_string(s: &Option<String>) -> (r: Option<String>)
    ensures
        r == *s,
{
    match s {
        Some(v) => Some(v.clone()),
        None => None,
    }
}

/// The error that a failed selection becomes.
pub open spec fn select_error(e: SelectError, vid: u16, pid: u16) -> KeyboardError {
    match e {
        SelectError::NoDevice => KeyboardError::NoDevice { vid, pid },
        SelectError::Ambiguous => KeyboardError::AmbiguousInterface,
    }
}

/// An open keyboard interface, with the record of what was exchanged on it.
pub struct Keyboard {
    pub dev: HidDevice,
    /// The position, in the context's interface list, of the interface the
    /// handle was opened from.
    pub opened: Ghost<int>,
    /// Every report handed to the device (`HidDevice::write`), in order.
    pub written: Ghost<Seq<Seq<u8>>>,
    /// Every complete 32-byte reply read from the device, in order.
    pub replies: Ghost<Seq<Seq<u8>>>,
}

/// A freshly opened interface: nothing exchanged yet.
pub open spec fn is_fresh(k: Keyboard) -> bool {
    k.written@ == Seq::<Seq<u8>>::empty() && k.replies@ == Seq::<Seq<u8>>::empty()
}

/// `k` was just opened from the interface that `select_spec` picks, and
/// nothing has been exchanged on it yet.
pub open spec fn freshly_selected(k: Keyboard, api: HidApi, vid: u16, pid: u16, serial: Option<Seq<char>>) -> bool {
    &&& is_fresh(k)
    &&& select_spec(hid_device_entries(api), vid, pid, serial) == Ok::<int, SelectError>(k.opened@)
}

/// Open the VIA/Vial RAW HID interface for a keyboard identified by
/// `vid`/`pid`, optionally filtered by serial number.
///
/// The interface is the one `select_spec` picks; when none is picked the
/// error says why. Opening the chosen interface may still fail, with an
/// `Open` error that names its path.
pub fn open_device(api: &HidApi, vid: u16, pid: u16, serial_filter: Option<&str>) -> (r: Result<Keyboard, KeyboardError>)
    ensures
        r matches Ok(k) ==> freshly_selected(k, *api, vid, pid, serial_view(serial_filter)),
        match select_spec(hid_device_entries(*api), vid, pid, serial_view(serial_filter)) {
            Err(e) => r == Err::<Keyboard, KeyboardError>(select_error(e, vid, pid)),
            Ok(i) => r is Ok || (r matches Err(KeyboardError::Open { path, cause }) && path
                == hid_device_entries(*api)[i].info.path),
        },
{
    let entries = device_entries(api);
    match select_interface(&entries, vid, pid, serial_filter) {
        Err(SelectError::NoDevice) => Err(KeyboardError::NoDevice { vid, pid }),
        Err(SelectError::Ambiguous) => Err(KeyboardError::AmbiguousInterface),
        Ok(i) => match open_listed_device(api, i) {
            Ok(k) => Ok(k),
            Err(e) => Err(
                KeyboardError::Open { path: entries[i].info.path.clone(), cause: hid_error_text(&e) },
            ),
        },
    }
}

// ── What the selection guarantees ───────────────────────────────────────────

proof fn lemma_candidate_members(entries: Seq<DeviceEntry>, vid: u16, pid: u16, serial: Option<Seq<char>>)
    ensures
        forall|k: int|
            0 <= k < candidate_indices(entries, vid, pid, serial).len() ==> {
                let i = #[trigger] candidate_indices(entries, vid, pid, serial)[k];
                0 <= i < entries.len() && is_candidate(entries[i], vid, pid, serial)
            },
        forall|j: int|
            0 <= j < entries.len() && #[trigger] is_candidate(entries[j], vid, pid, serial)
                ==> candidate_indices(entries, vid, pid, serial).contains(j),
    decreases entries.len(),
{
    if entries.len() > 0 {
        let init = entries.drop_last();
        lemma_candidate_members(init, vid, pid, serial);
        let rest = candidate_indices(init, vid, pid, serial);
        let all = candidate_indices(entries, vid, pid, serial);
        assert forall|k: int| 0 <= k < all.len() implies {
            let i = #[trigger] all[k];
            0 <= i < entries.len() && is_candidate(entries[i], vid, pid, serial)
        } by {
            if k < rest.len() {
                assert(all[k] == rest[k]);
                assert(init[rest[k]] == entries[rest[k]]);
            }
        }
        assert forall|j: int|
            0 <= j < entries.len() && #[trigger] is_candidate(entries[j], vid, pid, serial) implies all.contains(j) by {
            if j < entries.len() - 1 {
                assert(init[j] == entries[j]);
                assert(rest.contains(j));
                let k = choose|k: int| 0 <= k < rest.len() && rest[k] == j;
                assert(all[k] == j);
            } else {
                assert(all[all.len() - 1] == j);
            }
        }
    }
}

proof fn lemma_first_where_found(entries: Seq<DeviceEntry>, c: Seq<int>, p: spec_fn(DeviceEntry) -> bool)
    ensures
        first_where(entries, c, p) matches Some(i) ==> p(entries[i]) && c.contains(i),
        (exists|k: int| 0 <= k < c.len() && #[trigger] p(entries[c[k]])) ==> first_where(entries, c, p) is Some,
    decreases c.len(),
{
    lemma_first_where_in(entries, c, p);
    if c.len() > 0 && !p(entries[c[0]]) {
        lemma_first_where_found(entries, c.drop_first(), p);
        if exists|k: int| 0 <= k < c.len() && #[trigger] p(entries[c[k]]) {
            let k = choose|k: int| 0 <= k < c.len() && #[trigger] p(entries[c[k]]);
            assert(k > 0);
            assert(c.drop_first()[k - 1] == c[k]);
        }
    }
}

/// The interface picked belongs to the keyboard (its VID, PID and serial
/// filter); whenever the keyboard has an interface with the RAW HID usage
/// page and usage, one of those is picked; and `NoDevice` comes exactly
/// when no interface belongs to the keyboard.
pub proof fn law_selection_prefers_raw_hid(
    entries: Seq<DeviceEntry>,
    vid: u16,
    pid: u16,
    serial: Option<Seq<char>>,
)
    ensures
        select_spec(entries, vid, pid, serial) matches Ok(i) ==> 0 <= i < entries.len()
            && is_candidate(entries[i], vid, pid, serial),
        (exists|j: int|
            0 <= j < entries.len() && #[trigger] is_candidate(entries[j], vid, pid, serial)
                && is_raw_hid_usage(entries[j])) ==> (select_spec(entries, vid, pid, serial) matches Ok(
            i,
        ) && is_raw_hid_usage(entries[i])),
        select_spec(entries, vid, pid, serial) == Err::<int, SelectError>(SelectError::NoDevice) <==> !(exists|j: int|
            0 <= j < entries.len() && #[trigger] is_candidate(entries[j], vid, pid, serial)),
{
    let c = candidate_indices(entries, vid, pid, serial);
    lemma_candidate_members(entries, vid, pid, serial);
    let raw = |e: DeviceEntry| is_raw_hid_usage(e);
    let one = |e: DeviceEntry| is_interface_one(e);
    let mi = |e: DeviceEntry| path_mentions_mi01(e);
    lemma_first_where_found(entries, c, raw);
    lemma_first_where_found(entries, c, one);
    lemma_first_where_found(entries, c, mi);
    if let Some(i) = first_where(entries, c, raw) {
        let k = choose|k: int| 0 <= k < c.len() && c[k] == i;
        assert(c[k] == i);
    }
    if let Some(i) = first_where(entries, c, one) {
        let k = choose|k: int| 0 <= k < c.len() && c[k] == i;
        assert(c[k] == i);
    }
    if let Some(i) = first_where(entries, c, mi) {
        let k = choose|k: int| 0 <= k < c.len() && c[k] == i;
        assert(c[k] == i);
    }
    if c.len() > 0 {
        assert(c[0] == c[0]);
    }
    if exists|j: int|
        0 <= j < entries.len() && #[trigger] is_candidate(entries[j], vid, pid, serial) && is_raw_hid_usage(entries[j]) {
        let j = choose|j: int|
            0 <= j < entries.len() && #[trigger] is_candidate(entries[j], vid, pid, serial) && is_raw_hid_usage(entries[j]);
        assert(c.contains(j));
        let k = choose|k: int| 0 <= k < c.len() && c[k] == j;
        assert(raw(entries[c[k]]));
    }
    if exists|j: int| 0 <= j < entries.len() && #[trigger] is_candidate(entries[j], vid, pid, serial) {
        let j = choose|j: int| 0 <= j < entries.len() && #[trigger] is_candidate(entries[j], vid, pid, serial);
        assert(c.contains(j));
    }
}

// ── Raw packet I/O ──────────────────────────────────────────────────────────

/// The 33-byte write buffer for a 32-byte payload: a zero report ID followed
/// by the payload.
pub fn frame_report(payload: &[u8; 32]) -> (r: [u8; 33])
    ensures
        r@ == seq![0u8] + payload@,
{
    let mut w = [0u8; 33];
    let mut i: usize = 0;
    while i < 32
        invariant
            i <= 32,
            w@.len() == 33,
            payload@.len() == 32,
            w@[0] == 0,
            forall|j: int| 0 <= j < i ==> w@[j + 1] == payload@[j],
        decreases 32 - i,
    {
        w[i + 1] = payload[i];
        i += 1;
    }
    assert(w@ =~= seq![0u8] + payload@);
    w
}

/// How long `send_and_read` waits for the reply, in milliseconds.
pub const READ_TIMEOUT_MS: i32 = 150;

/// The report written for a payload: a zero report ID, then the payload.
pub open spec fn frame_of(payload: Seq<u8>) -> Seq<u8> {
    seq![0u8] + payload
}

/// The write-count check: a whole 33-byte report must have been written.
pub fn check_write_count(wrote: usize) -> (r: Result<(), KeyboardError>)
    ensures
        wrote == 33 ==> r is Ok,
        wrote != 33 ==> r == Err::<(), KeyboardError>(KeyboardError::WriteShort { wrote }),
{
    if wrote != 33 {
        return Err(KeyboardError::WriteShort { wrote });
    }
    Ok(())
}

/// The read-count check: the reply is `buf` when all 32 bytes were read.
pub fn check_reply(read: usize, buf: [u8; 32]) -> (r: Result<[u8; 32], KeyboardError>)
    ensures
        read == 32 ==> r == Ok::<[u8; 32], KeyboardError>(buf),
        read != 32 ==> r == Err::<[u8; 32], KeyboardError>(KeyboardError::ReadShort { read }),
{
    if read != 32 {
        return Err(KeyboardError::ReadShort { read });
    }
    Ok(buf)
}

/// Send a 32-byte payload, framed by `frame_report`, and read back a 32-byte
/// response.
///
/// The framed report is always handed to the device and recorded in
/// `written`. The exchange fails when the HID library fails, when the write
/// is short (`check_write_count`, before any read) or when the reply is not
/// 32 bytes long (`check_reply`); a complete reply is recorded in `replies`
/// and returned. Its bytes come from the keyboard.
pub fn send_and_read(kb: &mut Keyboard, payload: &[u8; 32]) -> (r: Result<[u8; 32], KeyboardError>)
    ensures
        final(kb).dev == old(kb).dev,
        final(kb).written@ == old(kb).written@.push(frame_of(payload@)),
        match r {
            Ok(b) => final(kb).replies@ == old(kb).replies@.push(b@),
            Err(e) => final(kb).replies@ == old(kb).replies@ && (e is Hid || e is WriteShort
                || e is ReadShort),
        },
        r matches Err(KeyboardError::WriteShort { wrote }) ==> wrote != 33,
        r matches Err(KeyboardError::ReadShort { read }) ==> read != 32,
{
    let write_buf = frame_report(payload);
    proof {
        kb.written@ = kb.written@.push(write_buf@);
    }
    let wrote = match hid_write(&kb.dev, &write_buf) {
        Ok(n) => n,
        Err(e) => return Err(KeyboardError::Hid { cause: hid_error_text(&e) }),
    };
    check_write_count(wrote)?;
    let mut read_buf = [0u8; 32];
    let read = match hid_read_timeout(&kb.dev, &mut read_buf, READ_TIMEOUT_MS) {
        Ok(n) => n,
        Err(e) => return Err(KeyboardError::Hid { cause: hid_error_text(&e) }),
    };
    let reply = check_reply(read, read_buf)?;
    proof {
        kb.replies@ = kb.replies@.push(reply@);
    }
    Ok(reply)
}

} // verus!
