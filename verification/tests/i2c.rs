use kernel_bridge::error::Error;
use kernel_bridge::error::ErrorKind;
use kernel_bridge::handle::ContextSlot;
use kernel_bridge::i2c::msg_flags;
use kernel_bridge::i2c::Adapter;
use kernel_bridge::i2c::Callback;
use kernel_bridge::i2c::Client;
use kernel_bridge::i2c::DeviceRemoval;
use kernel_bridge::i2c::Driver;
use kernel_bridge::i2c::MAX_TRANSFER;
use kernel_bridge::id_table::DeviceId;
use kernel_bridge::id_table::IdTable;
use kernel_bridge::id_table::Lookup;
use kernel_bridge::id_table::RawDeviceId;
use kernel_bridge::mcom_fpga::MComFPGA;
use kernel_bridge::mcom_fpga::CHIP_ADDR;
use std::sync::atomic::AtomicUsize;
use std::sync::atomic::Ordering;
use std::sync::Arc;

fn invalid() -> Error {
    Error::new(ErrorKind::InvalidArgument)
}

/// What a device of the recording driver keeps: what its probe saw, and
/// counters for the two steps of its removal.
struct Seen {
    addr: u16,
    info: Option<u32>,
    removed: Arc<AtomicUsize>,
    cleaned: Arc<AtomicUsize>,
}

impl DeviceRemoval for Seen {
    fn device_remove(&self) {
        assert_eq!(self.removed.load(Ordering::SeqCst), 1);
        self.cleaned.fetch_add(1, Ordering::SeqCst);
    }
}

/// A driver that refuses the device at address 0 and records the rest.
struct Recorder;

impl Driver for Recorder {
    type Data = Seen;
    type IdInfo = u32;

    fn probe(client: &Client, id_info: Option<&u32>) -> Result<Seen, Error> {
        if client.get_addr() == 0 {
            return Err(Error::new(ErrorKind::NoSuchDevice));
        }
        Ok(Seen {
            addr: client.get_addr(),
            info: id_info.copied(),
            removed: Arc::new(AtomicUsize::new(0)),
            cleaned: Arc::new(AtomicUsize::new(0)),
        })
    }

    fn remove(data: &Seen) {
        assert_eq!(data.cleaned.load(Ordering::SeqCst), 0);
        data.removed.fetch_add(1, Ordering::SeqCst);
    }
}

fn recorder_table() -> IdTable<u32, 3> {
    match IdTable::new(
        [DeviceId(b"one"), DeviceId(b"two"), DeviceId(b"three")],
        [Some(1u32), None, Some(3u32)],
    ) {
        Ok(table) => table,
        Err(e) => panic!("table refused: {:?}", e),
    }
}

#[test]
fn max_transfer_is_sixteen_bits() {
    assert_eq!(MAX_TRANSFER, 65535);
}

#[test]
fn message_flags_have_their_host_values() {
    assert_eq!(msg_flags::RD, 0x0001);
    assert_eq!(msg_flags::TEN, 0x0010);
    assert_eq!(msg_flags::DMA_SAFE, 0x0200);
    assert_eq!(msg_flags::RECV_LEN, 0x0400);
    assert_eq!(msg_flags::NO_RD_ACK, 0x0800);
    assert_eq!(msg_flags::IGNORE_NAK, 0x1000);
    assert_eq!(msg_flags::REV_DIR_ADDR, 0x2000);
    assert_eq!(msg_flags::NOSTART, 0x4000);
    assert_eq!(msg_flags::STOP, 0x8000);
}

#[test]
fn client_reports_address_and_device() {
    let client = Client::from_ptr(0x1000, 0x3c);
    assert_eq!(client.get_addr(), 0x3c);
    assert_eq!(client.raw_device(), 0x1000);
}

#[test]
fn empty_transfer_is_refused() {
    let client = Client::from_ptr(0x1000, 0x3c);
    assert_eq!(client.master_send(&[]).err(), Some(invalid()));
    assert_eq!(client.master_recv(&[]).err(), Some(invalid()));
    assert_eq!(client.transfer_buffer_flags(&[], msg_flags::TEN).err(), Some(invalid()));
}

#[test]
fn oversized_transfer_is_refused() {
    let client = Client::from_ptr(0x1000, 0x3c);
    let buf = vec![0u8; 65536];
    assert_eq!(client.master_send(&buf).err(), Some(invalid()));
    assert_eq!(client.master_recv(&buf).err(), Some(invalid()));
    let buf = vec![0u8; 100_000];
    assert_eq!(client.transfer_buffer_flags(&buf, 0).err(), Some(invalid()));
}

#[test]
fn transfer_bounds_are_inclusive() {
    let client = Client::from_ptr(0x1000, 0x3c);
    let one = client.master_send(&[9]).ok().map(|t| t.count());
    assert_eq!(one, Some(1));
    let buf = vec![0u8; 65535];
    let most = client.master_send(&buf).ok().map(|t| t.count());
    assert_eq!(most, Some(65535));
}

#[test]
fn master_send_plans_a_write() {
    let client = Client::from_ptr(0x2000, 0x50);
    match client.master_send(&[0x06, 0x00]) {
        Ok(transfer) => {
            assert_eq!(transfer.client(), 0x2000);
            assert_eq!(transfer.flags(), 0);
            assert_eq!(transfer.count(), 2);
        }
        Err(e) => panic!("refused: {:?}", e),
    }
}

#[test]
fn master_recv_plans_a_read() {
    let client = Client::from_ptr(0x2000, 0x50);
    let buf = [0u8; 7];
    match client.master_recv(&buf) {
        Ok(transfer) => {
            assert_eq!(transfer.client(), 0x2000);
            assert_eq!(transfer.flags(), msg_flags::RD);
            assert_eq!(transfer.count(), 7);
        }
        Err(e) => panic!("refused: {:?}", e),
    }
}

#[test]
fn transfer_buffer_flags_keeps_the_flags() {
    let client = Client::from_ptr(0x2000, 0x50);
    let flags = msg_flags::RD | msg_flags::STOP | msg_flags::IGNORE_NAK;
    match client.transfer_buffer_flags(&[1, 2, 3], flags) {
        Ok(transfer) => {
            assert_eq!(transfer.flags(), flags);
            assert_eq!(transfer.count(), 3);
        }
        Err(e) => panic!("refused: {:?}", e),
    }
}

#[test]
fn completed_transfer_returns_the_count() {
    let client = Client::from_ptr(0x2000, 0x50);
    let transfer = client.master_send(&[1, 2]).ok().expect("in range");
    assert_eq!(transfer.complete(2), Ok(2));
    let transfer = client.master_send(&[1, 2]).ok().expect("in range");
    assert_eq!(transfer.complete(0), Ok(0));
    let transfer = client.master_send(&[1, 2]).ok().expect("in range");
    assert_eq!(transfer.complete(1), Ok(1));
}

#[test]
fn failed_transfer_returns_the_host_error() {
    let client = Client::from_ptr(0x2000, 0x50);
    let transfer = client.master_send(&[1, 2]).ok().expect("in range");
    assert_eq!(transfer.complete(-16), Err(Error::new(ErrorKind::Busy)));
    let transfer = client.master_recv(&[0, 0]).ok().expect("in range");
    assert_eq!(transfer.complete(-6), Err(Error::new(ErrorKind::NoAcknowledge)));
    let transfer = client.master_recv(&[0, 0]).ok().expect("in range");
    assert_eq!(transfer.complete(-110), Err(Error::from_kernel_errno(-110)));
    let transfer = client.master_recv(&[0, 0]).ok().expect("in range");
    assert_eq!(transfer.complete(-70000), Err(invalid()));
}

/// Moves `buf` as the library plans it: asks `host` for each transfer that
/// was planned, and for nothing else.
fn send_through(
    client: &Client,
    buf: &[u8],
    host: &mut dyn FnMut(usize, u16, u16) -> i32,
) -> Result<usize, Error> {
    let transfer = client.master_send(buf)?;
    let ret = host(transfer.client(), transfer.flags(), transfer.count());
    transfer.complete(ret)
}

#[test]
fn host_is_asked_once_or_not_at_all() {
    let client = Client::from_ptr(0x2000, 0x50);
    let mut calls: Vec<(usize, u16, u16)> = Vec::new();
    let mut host = |ptr: usize, flags: u16, count: u16| {
        calls.push((ptr, flags, count));
        count as i32
    };
    assert_eq!(send_through(&client, &[], &mut host), Err(invalid()));
    assert_eq!(send_through(&client, &vec![0u8; 65536], &mut host), Err(invalid()));
    assert_eq!(send_through(&client, &[1, 2, 3], &mut host), Ok(3));
    assert_eq!(send_through(&client, &vec![0u8; 65535], &mut host), Ok(65535));
    assert_eq!(calls, vec![(0x2000, 0, 3), (0x2000, 0, 65535)]);

    let mut failures = 0;
    let mut busy = |_: usize, _: u16, _: u16| {
        failures += 1;
        -16
    };
    assert_eq!(send_through(&client, &[1], &mut busy), Err(Error::new(ErrorKind::Busy)));
    assert_eq!(failures, 1);
}

#[test]
fn register_fills_the_record() {
    let table = recorder_table();
    let record = Adapter::<Recorder>::register(b"recorder", Some(&table));
    assert_eq!(record.name, b"recorder".to_vec());
    assert_eq!(record.probe_new, Some(Callback::Probe));
    assert_eq!(record.remove, Some(Callback::Remove));
    assert_eq!(record.id_table, Some(table.to_raw()));
    let raw = record.id_table.expect("a table was given");
    assert_eq!(raw.len(), 4);
    assert_eq!(raw[3], RawDeviceId::zero());
}

#[test]
fn register_without_a_table_leaves_it_out() {
    let record = Adapter::<Recorder>::register::<0>(b"plain", None);
    assert_eq!(record.name, b"plain".to_vec());
    assert_eq!(record.probe_new, Some(Callback::Probe));
    assert_eq!(record.remove, Some(Callback::Remove));
    assert_eq!(record.id_table, None);
}

#[test]
fn accepted_registration_is_given_back_on_unregister() {
    let record = Adapter::<Recorder>::register::<0>(b"plain", None);
    let registration = match Adapter::<Recorder>::registered(record, 0) {
        Ok(registration) => registration,
        Err(e) => panic!("refused: {:?}", e),
    };
    let record = Adapter::<Recorder>::unregister(registration);
    assert_eq!(record.name, b"plain".to_vec());
    assert_eq!(record.id_table, None);
}

#[test]
fn refused_registration_reports_the_host_error() {
    let record = Adapter::<Recorder>::register::<0>(b"plain", None);
    let r = Adapter::<Recorder>::registered(record, -12);
    assert_eq!(r.err(), Some(Error::new(ErrorKind::OutOfMemory)));
    let record = Adapter::<Recorder>::register::<0>(b"plain", None);
    let r = Adapter::<Recorder>::registered(record, -16);
    assert_eq!(r.err(), Some(Error::new(ErrorKind::Busy)));
}

#[test]
fn get_id_info_reads_the_matched_record() {
    let table = recorder_table();
    assert_eq!(Adapter::<Recorder>::get_id_info(Some(&table), Some(0)), Lookup::Payload(&1));
    assert_eq!(Adapter::<Recorder>::get_id_info(Some(&table), Some(1)), Lookup::NoPayload);
    assert_eq!(Adapter::<Recorder>::get_id_info(Some(&table), Some(2)), Lookup::Payload(&3));
    assert_eq!(Adapter::<Recorder>::get_id_info(Some(&table), None), Lookup::NotFound);
    assert_eq!(Adapter::<Recorder>::get_id_info(Some(&table), Some(3)), Lookup::NotFound);
    assert_eq!(Adapter::<Recorder>::get_id_info(Some(&table), Some(usize::MAX)), Lookup::NotFound);
    assert_eq!(Adapter::<Recorder>::get_id_info::<3>(None, None), Lookup::NotFound);
    assert_eq!(Adapter::<Recorder>::get_id_info::<3>(None, Some(0)), Lookup::NotFound);
}

#[test]
fn match_without_payload_differs_from_no_match() {
    let table = recorder_table();
    let matched = Adapter::<Recorder>::get_id_info(Some(&table), Some(1));
    let unmatched = Adapter::<Recorder>::get_id_info(Some(&table), None);
    assert_ne!(matched, unmatched);
    assert_eq!(matched.payload(), None);
    assert_eq!(unmatched.payload(), None);
    assert_eq!(Adapter::<Recorder>::get_id_info(Some(&table), Some(0)).payload(), Some(&1));
}

#[test]
fn probe_binds_the_device() {
    let table = recorder_table();
    let client = Client::from_ptr(0x3000, 0x21);
    let mut clientdata = ContextSlot::new();
    let ret = Adapter::<Recorder>::probe_callback(Some(&table), Some(2), &client, &mut clientdata);
    assert_eq!(ret, 0);
    assert!(clientdata.is_open());
    assert_eq!(clientdata.borrow().addr, 0x21);
    assert_eq!(clientdata.borrow().info, Some(3));
}

#[test]
fn probe_without_a_match_sees_no_info() {
    let table = recorder_table();
    let client = Client::from_ptr(0x3000, 0x21);
    let mut clientdata = ContextSlot::new();
    let ret = Adapter::<Recorder>::probe_callback(Some(&table), None, &client, &mut clientdata);
    assert_eq!(ret, 0);
    assert_eq!(clientdata.borrow().info, None);
    let mut clientdata = ContextSlot::new();
    let ret = Adapter::<Recorder>::probe_callback(Some(&table), Some(1), &client, &mut clientdata);
    assert_eq!(ret, 0);
    assert_eq!(clientdata.borrow().info, None);
}

#[test]
fn failed_probe_leaves_the_device_unbound() {
    let table = recorder_table();
    let client = Client::from_ptr(0x3000, 0);
    let mut clientdata = ContextSlot::new();
    let ret = Adapter::<Recorder>::probe_callback(Some(&table), Some(0), &client, &mut clientdata);
    assert_eq!(ret, -19);
    assert!(clientdata.is_unopened());
    assert!(!clientdata.is_open());
}

#[test]
fn remove_runs_both_steps_once() {
    let table = recorder_table();
    let client = Client::from_ptr(0x3000, 0x21);
    let mut clientdata = ContextSlot::new();
    let ret = Adapter::<Recorder>::probe_callback(Some(&table), Some(0), &client, &mut clientdata);
    assert_eq!(ret, 0);
    let removed = clientdata.borrow().removed.clone();
    let cleaned = clientdata.borrow().cleaned.clone();
    Adapter::<Recorder>::remove_callback(&mut clientdata);
    assert_eq!(removed.load(Ordering::SeqCst), 1);
    assert_eq!(cleaned.load(Ordering::SeqCst), 1);
    assert!(!clientdata.is_open());
    assert!(!clientdata.is_unopened());
    assert_eq!(Arc::strong_count(&removed), 1);
}

#[test]
fn fpga_table_matches_fpga_only() {
    let table = match MComFPGA::id_table() {
        Ok(table) => table,
        Err(e) => panic!("table refused: {:?}", e),
    };
    assert_eq!(table.len(), 1);
    assert_eq!(table.match_id(b"fpga"), Some(0));
    assert_eq!(table.match_id(b"other"), None);
    assert_eq!(Adapter::<MComFPGA>::get_id_info(Some(&table), Some(0)), Lookup::NoPayload);
    assert_eq!(Adapter::<MComFPGA>::get_id_info(Some(&table), None), Lookup::NotFound);
    assert_eq!(
        Adapter::<MComFPGA>::get_id_info(Some(&table), table.match_id(b"fpga")),
        Lookup::NoPayload
    );
    assert_eq!(
        Adapter::<MComFPGA>::get_id_info(Some(&table), table.match_id(b"other")),
        Lookup::NotFound
    );
}

#[test]
fn fpga_probe_checks_the_address() {
    assert_eq!(CHIP_ADDR, 0x3c);
    let table = MComFPGA::id_table().ok().expect("the name fits");
    let client = Client::from_ptr(0x4000, 0x3c);
    let mut clientdata = ContextSlot::new();
    let ret = Adapter::<MComFPGA>::probe_callback(Some(&table), Some(0), &client, &mut clientdata);
    assert_eq!(ret, 0);
    assert!(clientdata.is_open());
    Adapter::<MComFPGA>::remove_callback(&mut clientdata);
    assert!(!clientdata.is_open());

    let client = Client::from_ptr(0x4000, 0x3d);
    let mut clientdata = ContextSlot::new();
    let ret = Adapter::<MComFPGA>::probe_callback(Some(&table), Some(0), &client, &mut clientdata);
    assert_eq!(ret, -22);
    assert!(clientdata.is_unopened());
}

#[test]
fn fpga_setup_is_one_write_of_two_bytes() {
    let client = Client::from_ptr(0x4000, 0x3c);
    match MComFPGA::setup_after_probe(0, &client) {
        Some((transfer, cmd)) => {
            assert_eq!(cmd, [0x06, 0x00]);
            assert_eq!(transfer.client(), 0x4000);
            assert_eq!(transfer.flags(), 0);
            assert_eq!(transfer.count(), 2);
            assert_eq!(transfer.complete(2), Ok(2));
        }
        None => panic!("no setup after an accepted probe"),
    }
}

#[test]
fn fpga_is_not_set_up_after_a_refused_probe() {
    let client = Client::from_ptr(0x4000, 0x3d);
    assert!(MComFPGA::setup_after_probe(-22, &client).is_none());
    assert!(MComFPGA::setup_after_probe(-19, &client).is_none());
    assert!(MComFPGA::setup_after_probe(1, &client).is_none());
    assert!(MComFPGA::setup_after_probe(i32::MIN, &client).is_none());
}

#[test]
fn fpga_setup_follows_the_probe() {
    let table = MComFPGA::id_table().ok().expect("the name fits");
    for (addr, expected, sent) in [(0x3cu16, 0, true), (0x3d, -22, false), (0, -22, false)] {
        let client = Client::from_ptr(0x4000, addr);
        let mut clientdata = ContextSlot::new();
        let ret =
            Adapter::<MComFPGA>::probe_callback(Some(&table), Some(0), &client, &mut clientdata);
        assert_eq!(ret, expected);
        assert_eq!(MComFPGA::setup_after_probe(ret, &client).is_some(), sent);
    }
}
