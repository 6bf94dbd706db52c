//! Reading the responses of Inquiry Result events.
//!
//! An Inquiry Result event lays out its `n` responses field by field: first the `n`
//! addresses (six bytes each), then the `n` page scan repetition modes (one byte each),
//! then reserved bytes (two per response without RSSI, one with RSSI), then the `n`
//! classes of device (three bytes each), then the `n` clock offsets (two bytes each),
//! and, with RSSI, the `n` signal strengths (one byte each).
use vstd::prelude::*;

use crate::event::{InquiryResult, InquiryResultWithRssi};
use crate::param::{BdAddr, ClockOffset, PageScanRepetitionMode};
use crate::primitives::array3;
use crate::{AsHciBytes, FromHciBytes};

verus! {

/// Struct representing a single parsed inquiry result item
#[derive(Debug, Clone, PartialEq, Eq)]
pub struct InquiryResultItem {
    /// Bluetooth Device Address (BD_ADDR) of the device found
    pub bd_addr: BdAddr,
    /// Page scan repetition mode of the device
    pub page_scan_repetition_mode: Option<PageScanRepetitionMode>,
    /// Class of device (CoD) of the device found
    pub class_of_device: Option<[u8; 3]>,
    /// Clock offset of the device found
    pub clock_offset: Option<ClockOffset>,
    /// Received Signal Strength Indicator (RSSI) of the device found
    /// This field is only present in `InquiryResultWithRssi`
    pub rssi: Option<i8>,
}

/// Iterator over inquiry result items
pub struct InquiryResultIter<'a> {
    bytes: &'a [u8],
    num_responses: usize,
    idx: usize,
    kind: InquiryResultKind,
}

/// Kind of inquiry result, indicating whether it includes RSSI or not
#[derive(Copy, Clone, Debug, PartialEq, Eq, Structural)]
pub enum InquiryResultKind {
    /// Standard inquiry result without RSSI
    Standard,
    /// Inquiry result with RSSI
    WithRssi,
}

/// The model of an [`InquiryResultIter`].
pub struct InquiryResultIterView {
    /// The bytes holding all the responses.
    pub bytes: Seq<u8>,
    /// The number of responses the bytes hold.
    pub num_responses: usize,
    /// The index of the next response to read.
    pub idx: usize,
    /// Whether the responses carry RSSI.
    pub kind: InquiryResultKind,
}

impl<'a> View for InquiryResultIter<'a> {
    type V = InquiryResultIterView;

    closed spec fn view(&self) -> InquiryResultIterView {
        InquiryResultIterView {
            bytes: self.bytes@,
            num_responses: self.num_responses,
            idx: self.idx,
            kind: self.kind,
        }
    }
}

/// The number of reserved bytes among `n` responses.
pub open spec fn reserved_len(kind: InquiryResultKind, n: int) -> int {
    match kind {
        InquiryResultKind::Standard => 2 * n,
        InquiryResultKind::WithRssi => n,
    }
}

/// Where the page scan repetition mode of response `i` of `n` stands.
pub open spec fn page_scan_offset(n: int, i: int) -> int {
    6 * n + i
}

/// Where the class of device of response `i` of `n` starts.
pub open spec fn class_offset(kind: InquiryResultKind, n: int, i: int) -> int {
    7 * n + reserved_len(kind, n) + 3 * i
}

/// Where the clock offset of response `i` of `n` starts.
pub open spec fn clock_offset_offset(kind: InquiryResultKind, n: int, i: int) -> int {
    10 * n + reserved_len(kind, n) + 2 * i
}

/// Where the RSSI of response `i` of `n` stands.
pub open spec fn rssi_offset(kind: InquiryResultKind, n: int, i: int) -> int {
    12 * n + reserved_len(kind, n) + i
}

/// Response `i` of the `n` responses in `bytes`, whose address the caller has checked
/// to lie within `bytes`; each other field is present only when its bytes lie within
/// `bytes` (and, for the page scan repetition mode, hold a known mode).
pub open spec fn spec_item(bytes: Seq<u8>, n: int, i: int, kind: InquiryResultKind) -> InquiryResultItem {
    let a = 6 * i;
    let p = page_scan_offset(n, i);
    let c = class_offset(kind, n, i);
    let k = clock_offset_offset(kind, n, i);
    let s = rssi_offset(kind, n, i);
    InquiryResultItem {
        bd_addr: BdAddr([bytes[a], bytes[a + 1], bytes[a + 2], bytes[a + 3], bytes[a + 4], bytes[a + 5]]),
        page_scan_repetition_mode: if p < bytes.len() {
            PageScanRepetitionMode::spec_from_u8(bytes[p])
        } else {
            None
        },
        class_of_device: if c + 3 <= bytes.len() {
            Some(array3(bytes.skip(c)))
        } else {
            None
        },
        clock_offset: if k + 2 <= bytes.len() {
            Some(ClockOffset([bytes[k], bytes[k + 1]]))
        } else {
            None
        },
        rssi: if kind == InquiryResultKind::WithRssi && s < bytes.len() {
            Some(bytes[s] as i8)
        } else {
            None
        },
    }
}

impl InquiryResultIterView {
    /// Whether the response at `idx` may be read: there is one left, and its address lies
    /// within the bytes.
    pub open spec fn has_item(self) -> bool {
        self.idx < self.num_responses && 6 * self.idx + 6 <= self.bytes.len()
    }

    /// What one step of iteration gives and leaves: the response at `idx` and the index
    /// after it, or nothing and the state unchanged.
    pub open spec fn spec_next(self) -> (Option<InquiryResultItem>, InquiryResultIterView) {
        if self.has_item() {
            (
                Some(spec_item(self.bytes, self.num_responses as int, self.idx as int, self.kind)),
                InquiryResultIterView { idx: (self.idx + 1) as usize, ..self },
            )
        } else {
            (None, self)
        }
    }

    /// The offsets that a step computes fit in a `usize`.
    pub open spec fn next_fits(self) -> bool {
        self.idx < self.num_responses ==> {
            let n = self.num_responses as int;
            let i = self.idx as int;
            let r = reserved_len(self.kind, n);
            &&& 10 * n + r + 2 * i <= usize::MAX
            &&& 6 * i + 6 <= self.bytes.len() ==> {
                &&& 10 * n + r + 2 * i + 2 <= usize::MAX
                &&& self.kind == InquiryResultKind::WithRssi ==> 12 * n + r + i <= usize::MAX
            }
        }
    }
}

/// The number of responses an iterator from index 0 yields: all `num_responses` of them
/// while their addresses lie within the bytes.
pub open spec fn item_count(s: InquiryResultIterView) -> int {
    if s.num_responses <= s.bytes.len() / 6 {
        s.num_responses as int
    } else {
        (s.bytes.len() / 6) as int
    }
}

/// The state after `k` steps of iteration from `s`.
pub open spec fn spec_steps(s: InquiryResultIterView, k: nat) -> InquiryResultIterView
    decreases k,
{
    if k == 0 {
        s
    } else {
        spec_steps(s, (k - 1) as nat).spec_next().1
    }
}

/// The steps of a fresh iterator advance the index one by one up to `item_count`, and
/// leave the rest of the state alone.
proof fn lemma_steps(s: InquiryResultIterView, k: nat)
    requires
        s.idx == 0,
    ensures
        spec_steps(s, k) == (InquiryResultIterView {
            idx: (if k <= item_count(s) {
                k as int
            } else {
                item_count(s)
            }) as usize,
            ..s
        }),
    decreases k,
{
    if k > 0 {
        lemma_steps(s, (k - 1) as nat);
    }
}

/// A fresh iterator yields, at its `k`th step, the `k`th response while `k` is below
/// `item_count`, and nothing from then on.
pub proof fn law_iteration_yields_responses_in_order(s: InquiryResultIterView, k: nat)
    requires
        s.idx == 0,
    ensures
        k < item_count(s) ==> spec_steps(s, k).spec_next().0 == Some(
            spec_item(s.bytes, s.num_responses as int, k as int, s.kind),
        ),
        k >= item_count(s) ==> spec_steps(s, k).spec_next().0 is None,
{
    lemma_steps(s, k);
}

/// Once a step yields nothing, the iterator is unchanged, so every later step yields
/// nothing too.
pub proof fn law_none_is_final(s: InquiryResultIterView)
    ensures
        s.spec_next().0 is None ==> s.spec_next().1 == s && s.spec_next().1.spec_next().0 is None,
{
}

/// A step never moves the index past `num_responses`.
pub proof fn law_index_bounded(s: InquiryResultIterView)
    requires
        s.idx <= s.num_responses,
    ensures
        s.spec_next().1.idx <= s.num_responses,
        s.spec_next().1.bytes == s.bytes,
        s.spec_next().1.num_responses == s.num_responses,
        s.spec_next().1.kind == s.kind,
{
}

/// A step that yields a response reads each of its fields from the place that the
/// field-by-field layout of `n` responses gives it, for response `k`: the address from
/// bytes `6k..6k+6` and the page scan repetition mode from byte `6n+k`; without RSSI (two
/// reserved bytes per response) the class of device from bytes `9n+3k..9n+3k+3` and the
/// clock offset from bytes `12n+2k..12n+2k+2`; with RSSI (one reserved byte per response)
/// the class of device from bytes `8n+3k..8n+3k+3`, the clock offset from bytes
/// `11n+2k..11n+2k+2` and the RSSI from byte `13n+k`. A field whose bytes lie beyond the
/// end is absent, and a response without RSSI has none.
pub proof fn law_next_reads_response_fields(s: InquiryResultIterView)
    requires
        s.has_item(),
    ensures
        ({
            let b = s.bytes;
            let n = s.num_responses as int;
            let k = s.idx as int;
            let item = s.spec_next().0.unwrap();
            let standard = s.kind == InquiryResultKind::Standard;
            let c = if standard {
                9 * n + 3 * k
            } else {
                8 * n + 3 * k
            };
            let o = if standard {
                12 * n + 2 * k
            } else {
                11 * n + 2 * k
            };
            &&& s.spec_next().0 is Some
            &&& item.bd_addr.0@ == b.subrange(6 * k, 6 * k + 6)
            &&& item.page_scan_repetition_mode == (if 6 * n + k < b.len() {
                PageScanRepetitionMode::spec_from_u8(b[6 * n + k])
            } else {
                None
            })
            &&& (item.class_of_device is Some <==> c + 3 <= b.len())
            &&& c + 3 <= b.len() ==> item.class_of_device.unwrap()@ == b.subrange(c, c + 3)
            &&& (item.clock_offset is Some <==> o + 2 <= b.len())
            &&& o + 2 <= b.len() ==> item.clock_offset.unwrap().0@ == b.subrange(o, o + 2)
            &&& standard ==> item.rssi is None
            &&& !standard ==> item.rssi == (if 13 * n + k < b.len() {
                Some(b[13 * n + k] as i8)
            } else {
                None
            })
        }),
{
    let b = s.bytes;
    let n = s.num_responses as int;
    let k = s.idx as int;
    let item = s.spec_next().0.unwrap();
    assert(item.bd_addr.0@ =~= b.subrange(6 * k, 6 * k + 6));
    let c = class_offset(s.kind, n, k);
    let o = clock_offset_offset(s.kind, n, k);
    if c + 3 <= b.len() {
        assert(item.class_of_device.unwrap()@ =~= b.subrange(c, c + 3));
    }
    if o + 2 <= b.len() {
        assert(item.clock_offset.unwrap().0@ =~= b.subrange(o, o + 2));
    }
}

/// Every step of an iterator over fewer than `usize::MAX / 14` responses can be taken: the
/// offsets it computes fit in a `usize`.
pub proof fn law_steps_fit(s: InquiryResultIterView)
    requires
        14 * s.num_responses <= usize::MAX,
    ensures
        s.next_fits(),
{
}

impl<'a> InquiryResultIter<'a> {
    /// Creates a new iterator for standard inquiry results
    pub fn new_standard(bytes: &'a [u8], num_responses: usize) -> (r: Self)
        ensures
            r@ == (InquiryResultIterView {
                bytes: bytes@,
                num_responses,
                idx: 0,
                kind: InquiryResultKind::Standard,
            }),
    {
        InquiryResultIter { bytes, num_responses, idx: 0, kind: InquiryResultKind::Standard }
    }

    /// Creates a new iterator for inquiry results with RSSI
    pub fn new_with_rssi(bytes: &'a [u8], num_responses: usize) -> (r: Self)
        ensures
            r@ == (InquiryResultIterView {
                bytes: bytes@,
                num_responses,
                idx: 0,
                kind: InquiryResultKind::WithRssi,
            }),
    {
        InquiryResultIter { bytes, num_responses, idx: 0, kind: InquiryResultKind::WithRssi }
    }

    /// Reads the next response: `None` when all `num_responses` have been read or when the
    /// next response's address does not lie within the bytes (the iterator then stays
    /// where it is).
    pub fn next(&mut self) -> (r: Option<InquiryResultItem>)
        requires
            old(self)@.next_fits(),
        ensures
            (r, final(self)@) == old(self)@.spec_next(),
    {
        if self.idx >= self.num_responses {
            return None;
        }
        let i = self.idx;
        let n = self.num_responses;

        let bd_addr_size = n * 6;
        let page_scan_size = n * 1;
        let class_size = n * 3;
        let clock_size = n * 2;

        let reserved_size = match self.kind {
            InquiryResultKind::Standard => n * 2,
            InquiryResultKind::WithRssi => n * 1,
        };

        let bd_addr_off = i * 6;
        let page_scan_off = bd_addr_size + i;
        let class_off = bd_addr_size + page_scan_size + reserved_size + i * 3;
        let clock_off = bd_addr_size + page_scan_size + reserved_size + class_size + i * 2;

        if self.bytes.len() < bd_addr_off + 6 {
            return None;
        }
        let b = self.bytes;

        let bd_addr = BdAddr::new(
            [
                b[bd_addr_off],
                b[bd_addr_off + 1],
                b[bd_addr_off + 2],
                b[bd_addr_off + 3],
                b[bd_addr_off + 4],
                b[bd_addr_off + 5],
            ],
        );

        let page_scan_repetition_mode = if page_scan_off < b.len() {
            match PageScanRepetitionMode::from_hci_bytes(&[b[page_scan_off]]) {
                Ok((m, _)) => Some(m),
                Err(_) => None,
            }
        } else {
            None
        };

        let class_of_device = if class_off + 3 <= b.len() {
            let c = [b[class_off], b[class_off + 1], b[class_off + 2]];
            assert(c =~= array3(b@.skip(class_off as int)));
            Some(c)
        } else {
            None
        };

        let clock_offset = if clock_off + 2 <= b.len() {
            Some(ClockOffset([b[clock_off], b[clock_off + 1]]))
        } else {
            None
        };

        let rssi = if self.kind == InquiryResultKind::WithRssi {
            let rssi_off = bd_addr_size + page_scan_size + reserved_size + class_size + clock_size
                + i;
            if rssi_off < b.len() {
                Some(b[rssi_off] as i8)
            } else {
                None
            }
        } else {
            None
        };

        self.idx += 1;

        Some(
            InquiryResultItem {
                bd_addr,
                page_scan_repetition_mode,
                class_of_device,
                clock_offset,
                rssi,
            },
        )
    }
}

impl<'a> InquiryResult<'a> {
    /// Returns an iterator over all valid inquiry result items.
    pub fn iter(&self) -> (r: InquiryResultIter<'_>)
        ensures
            r@ == (InquiryResultIterView {
                bytes: self.bytes@,
                num_responses: self.num_responses as usize,
                idx: 0,
                kind: InquiryResultKind::Standard,
            }),
    {
        let bytes = self.bytes.as_hci_bytes();
        let n = self.num_responses as usize;
        InquiryResultIter::new_standard(bytes, n)
    }
}

impl<'a> InquiryResultWithRssi<'a> {
    /// Returns an iterator over all valid inquiry result items.
    pub fn iter(&self) -> (r: InquiryResultIter<'_>)
        ensures
            r@ == (InquiryResultIterView {
                bytes: self.bytes@,
                num_responses: self.num_responses as usize,
                idx: 0,
                kind: InquiryResultKind::WithRssi,
            }),
    {
        let bytes = self.bytes.as_hci_bytes();
        let n = self.num_responses as usize;
        InquiryResultIter::new_with_rssi(bytes, n)
    }
}

} // verus!
