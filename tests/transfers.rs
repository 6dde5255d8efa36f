use usbfs::{
    read_device_descriptor, read_setup_struct, reap_error, request_type_byte, status_to_nixresult,
    write_setup_struct, BulkTransfer, BulkTransferMut, BusEndian, Completion, ControlTransferMut,
    CtrlTransfer, InterruptTransfer, InterruptTransferMut, IsoBufTransfer, IsoPacketDesc,
    NativeEndian, ReapError, Setup, SetupDirection, SetupRecipient, SetupType, StdBufTransfer,
    Transfer, TransferSlots, Urb, UrbFlags, UrbType, EAGAIN, STATUS_UNSET, URB_ISO_ASAP,
    URB_SHORT_NOT_OK,
};

fn no_flags() -> UrbFlags {
    UrbFlags::empty()
}

fn completion(status: i32, actual_length: i32) -> Completion {
    Completion { status, actual_length, start_frame: 0, error_count: 0, packets: Vec::new() }
}

#[test]
fn setup_request_type_vendor_interface_in() {
    let mut xfer = ControlTransferMut::new(
        SetupDirection::DeviceToHost,
        SetupType::Vendor,
        SetupRecipient::Interface,
        3,
        0,
        0,
        no_flags(),
        vec![0u8; 24],
    );
    let urb = xfer.wire_urb();
    assert_eq!(xfer.buf[0], 0xC1);
    assert_eq!(xfer.buf[1], 3);
    assert_eq!(xfer.setup.wLength, 16);
    assert_eq!(&xfer.buf[6..8], &[16u8, 0u8]);
    assert_eq!(urb.buffer_length, 24);
    assert_eq!(urb.urbtype, 2);
    assert_eq!(xfer.payload().len(), 16);
}

#[test]
fn std_control_writes_setup_at_buffer_head() {
    let mut buf = vec![0xAAu8; 24];
    buf[23] = 7;
    let mut xfer = StdBufTransfer::control(
        SetupDirection::DeviceToHost,
        SetupType::Vendor,
        SetupRecipient::Interface,
        3,
        0x1234,
        0xBEEF,
        no_flags(),
        buf,
    );
    assert_eq!(&xfer.buf[0..8], &[0xC1, 3, 0x34, 0x12, 0xEF, 0xBE, 16, 0]);
    assert_eq!(xfer.buf[8], 0xAA);
    assert_eq!(xfer.urb.endpoint, 0x80);
    assert_eq!(xfer.data_mut().len(), 16);
    assert_eq!(xfer.data_mut()[15], 7);
}

#[test]
fn request_type_bytes() {
    assert_eq!(
        request_type_byte(SetupDirection::DeviceToHost, SetupType::Vendor, SetupRecipient::Interface),
        0xC1
    );
    assert_eq!(
        request_type_byte(SetupDirection::HostToDevice, SetupType::Standard, SetupRecipient::Device),
        0x00
    );
    assert_eq!(
        request_type_byte(SetupDirection::HostToDevice, SetupType::Class, SetupRecipient::Other),
        0x23
    );
    assert_eq!(
        request_type_byte(SetupDirection::DeviceToHost, SetupType::Standard, SetupRecipient::Endpoint),
        0x82
    );
}

#[test]
fn iso_windowing_full_packets() {
    let mut xfer: IsoBufTransfer<32> =
        IsoBufTransfer::isochronous(0x81, UrbFlags::from_bits_truncate(URB_ISO_ASAP), vec![0u8; 2304], 256);
    let urb = xfer.wire_urb();
    assert_eq!(urb.number_of_packets, 9);
    let status = xfer.status();
    assert_eq!(status.len(), 9);
    for p in status {
        assert_eq!(p.length, 256);
        assert_eq!(p.actual_length, 0);
        assert_eq!(p.status, STATUS_UNSET);
    }
    assert_eq!(xfer.iso_packets[9].length, 0);
}

#[test]
fn iso_windowing_short_buffer() {
    let mut xfer: IsoBufTransfer<32> = IsoBufTransfer::isochronous(0x81, no_flags(), vec![0u8; 100], 256);
    let urb = xfer.wire_urb();
    assert_eq!(urb.number_of_packets, 1);
    assert_eq!(xfer.status()[0].length, 100);
}

#[test]
fn iso_windowing_partial_last_packet_and_capacity() {
    let mut xfer: IsoBufTransfer<4> = IsoBufTransfer::isochronous(0x81, no_flags(), vec![0u8; 600], 256);
    xfer.wire_urb();
    let lengths: Vec<i32> = xfer.status().iter().map(|p| p.length).collect();
    assert_eq!(lengths, vec![256, 256, 88]);

    let mut capped: IsoBufTransfer<2> = IsoBufTransfer::isochronous(0x81, no_flags(), vec![0u8; 2304], 256);
    let urb = capped.wire_urb();
    assert_eq!(urb.number_of_packets, 2);
    assert_eq!(capped.status().len(), 2);

    let mut empty: IsoBufTransfer<8> = IsoBufTransfer::isochronous(0x81, no_flags(), Vec::new(), 256);
    assert_eq!(empty.wire_urb().number_of_packets, 0);
    assert_eq!(empty.status().len(), 0);
}

#[test]
fn iso_completion_records_packets() {
    let mut xfer: IsoBufTransfer<4> = IsoBufTransfer::isochronous(0x81, no_flags(), vec![0u8; 300], 256);
    xfer.wire_urb();
    let c = Completion {
        status: 0,
        actual_length: 250,
        start_frame: 9,
        error_count: 0,
        packets: vec![
            IsoPacketDesc { length: 256, actual_length: 200, status: 0 },
            IsoPacketDesc { length: 44, actual_length: 44, status: -18 },
        ],
    };
    xfer.complete(&c);
    assert_eq!(xfer.status()[0].actual_length, 200);
    assert_eq!(xfer.status()[1].status, -18);
    assert_eq!(xfer.status()[1].length, 44);
    assert_eq!(xfer.get_urb().start_frame, 9);
}

#[test]
fn mono_transfers_wire_buffer_length() {
    let mut b = BulkTransfer::new(0x02, no_flags(), vec![1u8; 64]);
    assert_eq!(b.wire_urb().buffer_length, 64);
    assert_eq!(b.urb.urbtype, 3);
    let mut bm = BulkTransferMut::new(0x82, no_flags(), vec![0u8; 512]);
    let u = bm.wire_urb();
    assert_eq!((u.buffer_length, u.endpoint), (512, 0x82));
    let mut i = InterruptTransfer::new(0x01, no_flags(), vec![0u8; 8]);
    assert_eq!(i.wire_urb().urbtype, 1);
    let mut im = InterruptTransferMut::new(0x81, UrbFlags::from_bits_truncate(URB_SHORT_NOT_OK), vec![0u8; 16]);
    let u = im.wire_urb();
    assert_eq!((u.buffer_length, u.flags.bits()), (16, 1));
}

#[test]
fn urb_new_defaults() {
    let u = Urb::new(UrbType::Bulk, 0x81, no_flags());
    assert_eq!(u.urbtype, 3);
    assert_eq!(u.endpoint, 0x81);
    assert_eq!(u.status, -22);
    assert_eq!(u.buffer_length, 0);
    assert_eq!(u.usercontext, 0);
    let d = Urb::default();
    assert_eq!((d.urbtype, d.endpoint, d.status), (2, 0, -22));
    let p = IsoPacketDesc::default();
    assert_eq!((p.length, p.actual_length, p.status), (0, 0, -22));
    assert_eq!(UrbFlags::from_bits_truncate(0xffff_ffff).bits(), 0xe7);
}

#[test]
fn slot_table_reuses_freed_slot() {
    let mut slots: TransferSlots<BulkTransferMut> = TransferSlots::new();
    let (a, ua, _) = slots.submit(BulkTransferMut::new(0x81, no_flags(), vec![0u8; 10]));
    let (b, ub, _) = slots.submit(BulkTransferMut::new(0x82, no_flags(), vec![0u8; 20]));
    assert_eq!((a, b), (0, 1));
    assert_eq!((ua.usercontext, ub.usercontext), (0, 1));
    assert_eq!(ub.buffer_length, 20);

    let got = slots.reap(0, &completion(0, 7));
    assert_eq!(got.urb.endpoint, 0x81);
    assert_eq!(got.urb.actual_length, 7);
    assert!(!slots.is_occupied(0));
    assert!(slots.is_occupied(1));

    let (c, uc, _) = slots.submit(BulkTransferMut::new(0x83, no_flags(), vec![0u8; 30]));
    assert_eq!(c, 0);
    assert_eq!(uc.usercontext, 0);
    assert_eq!(slots.len(), 2);

    let second = slots.reap(1, &completion(-32, 0));
    assert_eq!(second.urb.endpoint, 0x82);
    assert_eq!(second.urb.status, -32);
    let third = slots.reap(0, &completion(0, 30));
    assert_eq!(third.urb.endpoint, 0x83);
    assert!(!slots.is_occupied(0) && !slots.is_occupied(1));
}

#[test]
fn in_flight_slot_not_reused() {
    let mut slots: TransferSlots<BulkTransferMut> = TransferSlots::new();
    let mut seen = Vec::new();
    for k in 0..5u8 {
        let (s, _, _) = slots.submit(BulkTransferMut::new(k, no_flags(), vec![k; 4]));
        assert!(!seen.contains(&s));
        seen.push(s);
    }
    let t = slots.take_transfer(2).unwrap();
    assert_eq!(t.urb.endpoint, 2);
    assert_eq!(slots.take_transfer(2).map(|t| t.urb.endpoint), None);
    let (s, _, _) = slots.submit(BulkTransferMut::new(9, no_flags(), vec![]));
    assert_eq!(s, 2);
    let (s, _, _) = slots.submit(BulkTransferMut::new(10, no_flags(), vec![]));
    assert_eq!(s, 5);
}

#[test]
fn refused_submission_gives_transfer_back() {
    let mut slots: TransferSlots<BulkTransferMut> = TransferSlots::new();
    let (slot, _, _) = slots.submit(BulkTransferMut::new(0x81, no_flags(), vec![5u8; 3]));
    let (err, back) = slots.give_back(slot, "refused");
    assert_eq!(err, "refused");
    assert_eq!(back.buf, vec![5u8; 3]);
    assert_eq!(back.urb.endpoint, 0x81);
    assert!(!slots.is_occupied(slot));
}

#[test]
fn nonblocking_reap_with_nothing_pending_would_block() {
    let mut slots: TransferSlots<BulkTransferMut> = TransferSlots::new();
    assert!(matches!(slots.reap_result(Err(EAGAIN)), Err(ReapError::WouldBlock)));
    assert!(matches!(slots.reap_result(Err(19)), Err(ReapError::Failed(19))));
    assert_eq!(reap_error(EAGAIN), ReapError::WouldBlock);
    assert_eq!(reap_error(108), ReapError::Failed(108));
    let (slot, _, _) = slots.submit(BulkTransferMut::new(0x81, no_flags(), vec![0u8; 8]));
    match slots.reap_result(Ok((slot, completion(0, 8)))) {
        Ok(t) => assert_eq!(t.urb.actual_length, 8),
        Err(_) => panic!("expected the submitted transfer"),
    }
}

#[test]
fn setup_round_trip_through_bus_bytes() {
    let native = Setup::new(
        SetupDirection::HostToDevice,
        SetupType::Class,
        SetupRecipient::Endpoint,
        0x09,
        0xA1B2,
        0x0304,
        0xFFEE,
    );
    let bus: Setup<BusEndian> = native.into();
    let mut buf = vec![0u8; 10];
    write_setup_struct(&bus, &mut buf);
    assert_eq!(&buf[..8], &[0x22, 0x09, 0xB2, 0xA1, 0x04, 0x03, 0xEE, 0xFF]);
    let back: Setup<NativeEndian> = read_setup_struct(&buf).unwrap().into();
    assert_eq!(back.bmRequestType, native.bmRequestType);
    assert_eq!(back.bRequest, native.bRequest);
    assert_eq!(back.wValue, native.wValue);
    assert_eq!(back.wIndex, native.wIndex);
    assert_eq!(back.wLength, native.wLength);
    assert!(read_setup_struct(&buf[..7]).is_none());
}

#[test]
fn device_descriptor_from_bytes() {
    let raw = [18u8, 1, 0x00, 0x02, 0xFF, 0, 0, 64, 0xFF, 0xFF, 0x03, 0x00, 0x10, 0x01, 1, 2, 3, 1];
    let d: usbfs::DeviceDescriptor<NativeEndian> = read_device_descriptor(&raw).unwrap().into();
    assert_eq!(d.bLength, 18);
    assert_eq!(d.bcdUSB, 0x0200);
    assert_eq!(d.idVendor, 0xFFFF);
    assert_eq!(d.idProduct, 3);
    assert_eq!(d.bcdDevice, 0x0110);
    assert_eq!(d.bMaxPacketSize0, 64);
    assert_eq!(d.bNumConfigurations, 1);
    assert!(read_device_descriptor(&raw[..17]).is_none());
}

#[test]
fn completion_status_maps_to_errno() {
    let mut x = StdBufTransfer::bulk(0x81, no_flags(), vec![0u8; 16]);
    x.wire_urb();
    x.complete(&completion(-32, 0));
    assert_eq!(x.result_length(), Err(nix::errno::Errno::EPIPE));
    x.complete(&completion(0, 12));
    assert_eq!(x.result_length(), Ok(12));
    assert_eq!(status_to_nixresult(-19), Err(nix::errno::Errno::ENODEV));
    assert_eq!(status_to_nixresult(0), Ok(()));
}

#[test]
fn std_iso_single_packet() {
    let mut x = StdBufTransfer::isochronous(0x81, no_flags(), vec![0u8; 192]);
    let u = x.wire_urb();
    assert_eq!(u.number_of_packets, 1);
    assert_eq!(x.iso_packet.length, 192);
    assert_eq!(x.packet_descs().len(), 1);
    let c = Completion {
        status: 0,
        actual_length: 0,
        start_frame: 0,
        error_count: 0,
        packets: vec![IsoPacketDesc { length: 192, actual_length: 96, status: 0 }],
    };
    x.complete(&c);
    assert_eq!(x.result_length(), Ok(96));
}

#[test]
fn ctrl_transfer_request() {
    let c = CtrlTransfer::new(
        SetupDirection::DeviceToHost,
        SetupType::Vendor,
        SetupRecipient::Interface,
        0,
        0,
        0,
        16,
        1000,
    );
    assert_eq!((c.bmRequestType, c.wLength, c.timeout), (0xC1, 16, 1000));
}

#[test]
fn device_dirnames() {
    assert!(usbfs::is_device_dirname("1-1"));
    assert!(usbfs::is_device_dirname("2-1.4"));
    assert!(!usbfs::is_device_dirname("usb1"));
    assert!(!usbfs::is_device_dirname("1-1:1.0"));
    assert!(usbfs::is_device_dirname("us"));
}

#[test]
fn device_paths_in_order() {
    let paths: Vec<String> = usbfs::device_path_candidates(1, 5)
        .into_iter()
        .map(|p| String::from_utf8(p).unwrap())
        .collect();
    assert_eq!(paths, vec!["/dev/bus/usb/001/005", "/dev/usbdev001.005", "/proc/bus/usb/001/005"]);
    let wide: Vec<String> = usbfs::device_path_candidates(123, 1234)
        .into_iter()
        .map(|p| String::from_utf8(p).unwrap())
        .collect();
    assert_eq!(wide[0], "/dev/bus/usb/123/1234");
    assert_eq!(wide[1], "/dev/usbdev123.1234");
    let zero: Vec<String> = usbfs::device_path_candidates(0, 0)
        .into_iter()
        .map(|p| String::from_utf8(p).unwrap())
        .collect();
    assert_eq!(zero[2], "/proc/bus/usb/000/000");
    assert_eq!(zero[1], "/dev/usbdev000.000");
}

#[test]
fn submit_result_keeps_or_returns_transfer() {
    let mut slots: TransferSlots<BulkTransferMut> = TransferSlots::new();
    let (a, _, _) = slots.submit(BulkTransferMut::new(0x81, no_flags(), vec![1u8; 4]));
    assert_eq!(slots.submit_result::<i32>(a, Ok(())).ok(), Some(a));
    assert!(slots.is_occupied(a));
    let (b, _, _) = slots.submit(BulkTransferMut::new(0x82, no_flags(), vec![2u8; 4]));
    match slots.submit_result(b, Err(-19)) {
        Err((e, t)) => {
            assert_eq!(e, -19);
            assert_eq!(t.urb.endpoint, 0x82);
            assert_eq!(t.buf, vec![2u8; 4]);
        }
        Ok(_) => panic!("a refused submission must give the transfer back"),
    }
    assert!(!slots.is_occupied(b));
    assert!(slots.is_occupied(a));
}

#[test]
fn iso_untransferred_tail() {
    let capped: IsoBufTransfer<2> = IsoBufTransfer::isochronous(0x81, no_flags(), vec![0u8; 2304], 256);
    assert_eq!(capped.untransferred_len(), 1792);
    let roomy: IsoBufTransfer<32> = IsoBufTransfer::isochronous(0x81, no_flags(), vec![0u8; 2304], 256);
    assert_eq!(roomy.untransferred_len(), 0);
}

#[test]
fn std_control_wire_refreshes_setup_length() {
    let mut x = StdBufTransfer::control(
        SetupDirection::DeviceToHost,
        SetupType::Vendor,
        SetupRecipient::Interface,
        3,
        0,
        0,
        no_flags(),
        vec![0u8; 24],
    );
    x.buf.truncate(10);
    let u = x.wire_urb();
    assert_eq!(&x.buf[6..8], &[2u8, 0u8]);
    assert_eq!(x.buf[0], 0xC1);
    assert_eq!(u.buffer_length, 10);
    x.buf.resize(8 + 0x1234, 0);
    x.wire_urb();
    assert_eq!(&x.buf[6..8], &[0x34u8, 0x12u8]);
}

#[test]
fn std_result_data_mut_slices_moved_bytes() {
    let mut buf = vec![0u8; 12];
    buf[8] = 9;
    let mut x = StdBufTransfer::control(
        SetupDirection::DeviceToHost,
        SetupType::Vendor,
        SetupRecipient::Interface,
        3,
        0,
        0,
        no_flags(),
        buf,
    );
    x.complete(&completion(0, 2));
    assert_eq!(x.result_data_mut().unwrap(), &mut [9u8, 0u8][..]);
    x.complete(&completion(0, 5));
    assert_eq!(x.result_data_mut(), Err(nix::errno::Errno::EOVERFLOW));
    x.complete(&completion(-110, 0));
    assert_eq!(x.result_data_mut(), Err(nix::errno::Errno::ETIMEDOUT));
    let mut b = StdBufTransfer::bulk(0x81, no_flags(), vec![7u8; 6]);
    b.complete(&completion(0, 6));
    assert_eq!(b.result_data_mut().unwrap().len(), 6);
}
