use bt_hci::event::{InquiryResult, InquiryResultWithRssi};
use bt_hci::param::PageScanRepetitionMode;
use bt_hci::{AsHciBytes, FromHciBytes};

#[test]
fn test_inquiry_result_access() {
    // Test data for InquiryResult with 2 responses
    let data = [
        0x02, // num_responses = 2
        0x01, 0x02, 0x03, 0x04, 0x05, 0x06, // addr 1
        0x11, 0x12, 0x13, 0x14, 0x15, 0x16, // addr 2
        0x01, 0x02, // R1, R2
        0x00, 0x00, 0x00, 0x00, // reserved
        0x20, 0x04, 0x00, 0x30, 0x05, 0x01, // class of device
        0x34, 0x12, 0x78, 0x56, // clock offsets
    ];
    let (inquiry_result, _) = InquiryResult::from_hci_bytes(&data).unwrap();
    let mut iter = inquiry_result.iter();
    let item1 = iter.next().unwrap();
    assert_eq!(item1.bd_addr.as_hci_bytes(), &[0x01, 0x02, 0x03, 0x04, 0x05, 0x06]);
    assert_eq!(item1.page_scan_repetition_mode, Some(PageScanRepetitionMode::R1));
    assert_eq!(item1.class_of_device, Some([0x20, 0x04, 0x00]));
    assert_eq!(item1.clock_offset.unwrap().as_hci_bytes(), &[0x34, 0x12]);
    assert_eq!(item1.rssi, None);
    let item2 = iter.next().unwrap();
    assert_eq!(item2.bd_addr.as_hci_bytes(), &[0x11, 0x12, 0x13, 0x14, 0x15, 0x16]);
    assert_eq!(item2.page_scan_repetition_mode, Some(PageScanRepetitionMode::R2));
    assert_eq!(item2.class_of_device, Some([0x30, 0x05, 0x01]));
    assert_eq!(item2.clock_offset.unwrap().as_hci_bytes(), &[0x78, 0x56]);
    assert_eq!(item2.rssi, None);
    assert!(iter.next().is_none());
}

#[test]
fn test_inquiry_result_with_rssi_access() {
    // Test data for InquiryResultWithRssi with 2 responses
    let data = [
        0x02, // num_responses = 2
        0x01, 0x02, 0x03, 0x04, 0x05, 0x06, // addr 1
        0x11, 0x12, 0x13, 0x14, 0x15, 0x16, // addr 2
        0x01, 0x02, // R1, R2
        0x00, 0x00, // reserved
        0x20, 0x04, 0x00, 0x30, 0x05, 0x01, // class of device
        0x34, 0x12, 0x78, 0x56, // clock offsets
        0xF0, 0xE8, // RSSI
    ];
    let (inquiry_result, _) = InquiryResultWithRssi::from_hci_bytes(&data).unwrap();
    let mut iter = inquiry_result.iter();
    let item1 = iter.next().unwrap();
    assert_eq!(item1.bd_addr.as_hci_bytes(), &[0x01, 0x02, 0x03, 0x04, 0x05, 0x06]);
    assert_eq!(item1.page_scan_repetition_mode, Some(PageScanRepetitionMode::R1));
    assert_eq!(item1.class_of_device, Some([0x20, 0x04, 0x00]));
    assert_eq!(item1.clock_offset.unwrap().as_hci_bytes(), &[0x34, 0x12]);
    assert_eq!(item1.rssi, Some(-16));
    let item2 = iter.next().unwrap();
    assert_eq!(item2.bd_addr.as_hci_bytes(), &[0x11, 0x12, 0x13, 0x14, 0x15, 0x16]);
    assert_eq!(item2.page_scan_repetition_mode, Some(PageScanRepetitionMode::R2));
    assert_eq!(item2.class_of_device, Some([0x30, 0x05, 0x01]));
    assert_eq!(item2.clock_offset.unwrap().as_hci_bytes(), &[0x78, 0x56]);
    assert_eq!(item2.rssi, Some(-24));
    assert!(iter.next().is_none());
}

#[test]
fn test_simple_inquiry_result() {
    // Test with minimal data - just 1 response
    let data = [
        0x01, // num_responses = 1
        // BD address: 1 address, 6 bytes
        0x01, 0x02, 0x03, 0x04, 0x05, 0x06, // Page scan repetition mode: 1 mode, 1 byte
        0x01, // R1
        // Reserved: 1 byte
        0x00, // Class of device: 1 device, 3 bytes
        0x20, 0x04, 0x00, // Clock offset: 1 offset, 2 bytes
        0x34, 0x12,
    ];

    let (inquiry_result, _) = InquiryResult::from_hci_bytes(&data).unwrap();
    assert_eq!(inquiry_result.num_responses, 1);

    // Test the first response
    let item = inquiry_result.iter().next();
    assert!(item.is_some());
    if let Some(item) = item {
        assert_eq!(item.bd_addr.as_hci_bytes(), &[0x01, 0x02, 0x03, 0x04, 0x05, 0x06]);
    }
}
