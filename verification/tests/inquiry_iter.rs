use bt_hci::event::{InquiryResult, InquiryResultItem, InquiryResultIter, InquiryResultWithRssi};
use bt_hci::param::{BdAddr, ClockOffset, PageScanRepetitionMode};
use bt_hci::FromHciBytes;

#[test]
fn iterator_stops_at_num_responses_and_stays_stopped() {
    let bytes = [0x01, 0x02, 0x03, 0x04, 0x05, 0x06, 0x02, 0x00, 0x00, 0x20, 0x04, 0x00, 0x34, 0x12];
    let mut iter = InquiryResultIter::new_standard(&bytes, 1);
    let item = iter.next().unwrap();
    assert_eq!(
        item,
        InquiryResultItem {
            bd_addr: BdAddr::new([1, 2, 3, 4, 5, 6]),
            page_scan_repetition_mode: Some(PageScanRepetitionMode::R2),
            class_of_device: Some([0x20, 0x04, 0x00]),
            clock_offset: Some(ClockOffset([0x34, 0x12])),
            rssi: None,
        }
    );
    assert!(iter.next().is_none());
    assert!(iter.next().is_none());
}

#[test]
fn iterator_stops_when_address_is_cut_off() {
    // Two responses announced, but only one address fits.
    let bytes = [0x01, 0x02, 0x03, 0x04, 0x05, 0x06, 0x11, 0x12];
    let mut iter = InquiryResultIter::new_standard(&bytes, 2);
    let item = iter.next().unwrap();
    assert_eq!(item.bd_addr, BdAddr::new([1, 2, 3, 4, 5, 6]));
    // Fields past the end of the bytes are absent.
    assert_eq!(item.page_scan_repetition_mode, None);
    assert_eq!(item.class_of_device, None);
    assert_eq!(item.clock_offset, None);
    assert!(iter.next().is_none());
    assert!(iter.next().is_none());
}

#[test]
fn unknown_page_scan_mode_is_absent() {
    let bytes = [0x01, 0x02, 0x03, 0x04, 0x05, 0x06, 0x09];
    let mut iter = InquiryResultIter::new_with_rssi(&bytes, 1);
    let item = iter.next().unwrap();
    assert_eq!(item.page_scan_repetition_mode, None);
    assert_eq!(item.rssi, None);
}

#[test]
fn rssi_offsets_follow_clock_offsets() {
    // One response with RSSI: addr(6), mode(1), reserved(1), class(3), clock(2), rssi(1).
    let data = [
        0x01, 0xa1, 0xa2, 0xa3, 0xa4, 0xa5, 0xa6, 0x00, 0xff, 0x01, 0x02, 0x03, 0x10, 0x20, 0x9c,
    ];
    let (evt, rest) = InquiryResultWithRssi::from_hci_bytes(&data).unwrap();
    assert!(rest.is_empty());
    let mut iter = evt.iter();
    let item = iter.next().unwrap();
    assert_eq!(item.page_scan_repetition_mode, Some(PageScanRepetitionMode::R0));
    assert_eq!(item.class_of_device, Some([0x01, 0x02, 0x03]));
    assert_eq!(item.clock_offset, Some(ClockOffset([0x10, 0x20])));
    assert_eq!(item.rssi, Some(-100));
    assert!(iter.next().is_none());
}

#[test]
fn empty_inquiry_result_yields_nothing() {
    let (evt, _) = InquiryResult::from_hci_bytes(&[0x00]).unwrap();
    assert!(evt.iter().next().is_none());
}
