use bt_hci::cmd::SyncCmd;
use bt_hci::event::CommandComplete;
use bt_hci::param::{BdAddr, ConnHandle, Error, Status};
use bt_hci::{FromHciBytes, FromHciBytesError};

struct ReadBdAddr;

impl SyncCmd for ReadBdAddr {
    const OPCODE: u16 = 0x1009;
    type Return = BdAddr;
    type Handle = ();
}

struct Flush;

impl SyncCmd for Flush {
    const OPCODE: u16 = 0x0c08;
    type Return = ConnHandle;
    type Handle = ConnHandle;
}

#[test]
fn return_params_reads_all_bytes() {
    let data = [0x01, 0x09, 0x10, 0x00, 0x01, 0x02, 0x03, 0x04, 0x05, 0x06];
    let (evt, _) = CommandComplete::from_hci_bytes(&data).unwrap();
    assert_eq!(evt.return_params::<ReadBdAddr>().unwrap(), BdAddr::new([1, 2, 3, 4, 5, 6]));
    assert_eq!(evt.to_result::<ReadBdAddr>().unwrap(), BdAddr::new([1, 2, 3, 4, 5, 6]));
}

#[test]
fn return_params_with_leftover_bytes_fail() {
    let data = [0x01, 0x09, 0x10, 0x00, 0x01, 0x02, 0x03, 0x04, 0x05, 0x06, 0x07];
    let (evt, _) = CommandComplete::from_hci_bytes(&data).unwrap();
    assert_eq!(evt.return_params::<ReadBdAddr>().unwrap_err(), FromHciBytesError::InvalidSize);
    assert_eq!(evt.to_result::<ReadBdAddr>().unwrap_err(), Error::invalid_hci_parameters());
}

#[test]
fn to_result_reports_status_first() {
    let data = [0x01, 0x09, 0x10, 0x0c, 0x01];
    let (evt, _) = CommandComplete::from_hci_bytes(&data).unwrap();
    assert_eq!(evt.status, Status(0x0c));
    assert_eq!(evt.to_result::<ReadBdAddr>().unwrap_err(), Error(0x0c));
}

#[test]
fn handle_is_read_from_return_params() {
    let data = [0x01, 0x08, 0x0c, 0x02, 0x34, 0x00];
    let (evt, _) = CommandComplete::from_hci_bytes(&data).unwrap();
    // The status is an error, but the handle still comes back.
    assert_eq!(evt.handle::<Flush>().unwrap(), ConnHandle(0x34));
    assert_eq!(evt.to_result::<Flush>().unwrap_err(), Error(0x02));
    let data = [0x01, 0x08, 0x0c, 0x00, 0x34];
    let (evt, _) = CommandComplete::from_hci_bytes(&data).unwrap();
    assert_eq!(evt.handle::<Flush>().unwrap_err(), FromHciBytesError::InvalidSize);
    let data = [0x01, 0x08, 0x0c, 0x00, 0x34, 0x00];
    let (evt, _) = CommandComplete::from_hci_bytes(&data).unwrap();
    assert_eq!(evt.to_result::<Flush>().unwrap(), ConnHandle(0x34));
}

#[test]
fn status_to_result() {
    assert_eq!(Status(0).to_result(), Ok(()));
    assert_eq!(Status(0x13).to_result(), Err(Error(0x13)));
}
