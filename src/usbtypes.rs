use std::marker::PhantomData;
use vstd::prelude::*;

verus! {

/// Marker for records whose multi-byte fields are laid out little-endian, as on the bus.
#[derive(Debug, Copy, Clone)]
pub struct BusEndian;

/// Marker for records whose fields hold host values, as callers build and read them.
#[derive(Debug, Copy, Clone)]
pub struct NativeEndian;

/// Low byte of a 16-bit value.
pub open spec fn lo_byte(x: u16) -> u8 {
    (x & 0xff) as u8
}

/// High byte of a 16-bit value.
pub open spec fn hi_byte(x: u16) -> u8 {
    (x >> 8) as u8
}

/// The 16-bit value whose little-endian bytes are `lo`, `hi`.
pub open spec fn le_u16(lo: u8, hi: u8) -> u16 {
    ((lo as u16) | ((hi as u16) << 8)) as u16
}

/// Splitting a 16-bit value into its little-endian bytes and joining them gives it back.
pub proof fn lemma_le_u16_round_trip(x: u16)
    ensures
        le_u16(lo_byte(x), hi_byte(x)) == x,
{
    assert(((((x & 0xff) as u8) as u16) | ((((x >> 8) as u8) as u16) << 8)) == x) by (bit_vector);
}

/// Joining two bytes and splitting the result gives them back.
pub proof fn lemma_le_bytes_round_trip(lo: u8, hi: u8)
    ensures
        lo_byte(le_u16(lo, hi)) == lo,
        hi_byte(le_u16(lo, hi)) == hi,
{
    assert((((lo as u16) | ((hi as u16) << 8)) & 0xff) as u8 == lo) by (bit_vector);
    assert((((lo as u16) | ((hi as u16) << 8)) >> 8) as u8 == hi) by (bit_vector);
}

pub(crate) fn to_le_bytes16(x: u16) -> (r: (u8, u8))
    ensures
        r.0 == lo_byte(x),
        r.1 == hi_byte(x),
{
    ((x & 0xff) as u8, (x >> 8) as u8)
}

fn from_le_bytes16(lo: u8, hi: u8) -> (r: u16)
    ensures
        r == le_u16(lo, hi),
{
    (lo as u16) | ((hi as u16) << 8)
}


/// Direction of a control request, bit 7 of the request-type byte.
#[derive(Debug, Copy, Clone, PartialEq, Eq, Structural)]
pub enum SetupDirection {
    HostToDevice,
    DeviceToHost,
}

/// Type of a control request, bits 5 and 6 of the request-type byte.
#[derive(Debug, Copy, Clone, PartialEq, Eq, Structural)]
pub enum SetupType {
    Standard,
    Class,
    Vendor,
}

/// Recipient of a control request, the low bits of the request-type byte.
#[derive(Debug, Copy, Clone, PartialEq, Eq, Structural)]
pub enum SetupRecipient {
    Device,
    Interface,
    Endpoint,
    Other,
}

impl SetupDirection {
    pub open spec fn spec_bits(self) -> u8 {
        match self {
            SetupDirection::HostToDevice => 0x00,
            SetupDirection::DeviceToHost => 0x80,
        }
    }

    /// The bits this direction contributes to the request-type byte.
    pub fn bits(self) -> (r: u8)
        ensures
            r == self.spec_bits(),
    {
        match self {
            SetupDirection::HostToDevice => 0x00,
            SetupDirection::DeviceToHost => 0x80,
        }
    }
}

impl SetupType {
    pub open spec fn spec_bits(self) -> u8 {
        match self {
            SetupType::Standard => 0x00,
            SetupType::Class => 0x20,
            SetupType::Vendor => 0x40,
        }
    }

    /// The bits this request type contributes to the request-type byte.
    pub fn bits(self) -> (r: u8)
        ensures
            r == self.spec_bits(),
    {
        match self {
            SetupType::Standard => 0x00,
            SetupType::Class => 0x20,
            SetupType::Vendor => 0x40,
        }
    }
}

impl SetupRecipient {
    pub open spec fn spec_bits(self) -> u8 {
        match self {
            SetupRecipient::Device => 0,
            SetupRecipient::Interface => 1,
            SetupRecipient::Endpoint => 2,
            SetupRecipient::Other => 3,
        }
    }

    /// The bits this recipient contributes to the request-type byte.
    pub fn bits(self) -> (r: u8)
        ensures
            r == self.spec_bits(),
    {
        match self {
            SetupRecipient::Device => 0,
            SetupRecipient::Interface => 1,
            SetupRecipient::Endpoint => 2,
            SetupRecipient::Other => 3,
        }
    }
}

/// The request-type byte composed of a direction, a type and a recipient.
pub open spec fn request_type(d: SetupDirection, t: SetupType, r: SetupRecipient) -> u8 {
    d.spec_bits() | t.spec_bits() | r.spec_bits()
}

/// Composes the request-type byte of a control request.
pub fn request_type_byte(d: SetupDirection, t: SetupType, r: SetupRecipient) -> (b: u8)
    ensures
        b == request_type(d, t, r),
{
    d.bits() | t.bits() | r.bits()
}

/// The 8-byte header of a control request.
///
/// The marker `E` tells which form the record is in: `NativeEndian` as built by callers,
/// `BusEndian` as it is laid out, little-endian, at the head of a control transfer's buffer.
#[allow(non_snake_case)]
#[derive(Debug)]
pub struct Setup<E> {
    pub bmRequestType: u8,
    pub bRequest: u8,
    pub wValue: u16,
    pub wIndex: u16,
    pub wLength: u16,
    pub endian: PhantomData<E>,
}

impl<E> Clone for Setup<E> {
    fn clone(&self) -> (r: Self) {
        *self
    }
}

impl<E> Copy for Setup<E> {

}

impl<E> Setup<E> {
    /// The same fields in another form.
    pub open spec fn spec_recast<F>(self) -> Setup<F> {
        Setup {
            bmRequestType: self.bmRequestType,
            bRequest: self.bRequest,
            wValue: self.wValue,
            wIndex: self.wIndex,
            wLength: self.wLength,
            endian: PhantomData,
        }
    }

    fn recast<F>(self) -> (r: Setup<F>)
        ensures
            r == self.spec_recast::<F>(),
    {
        Setup {
            bmRequestType: self.bmRequestType,
            bRequest: self.bRequest,
            wValue: self.wValue,
            wIndex: self.wIndex,
            wLength: self.wLength,
            endian: PhantomData,
        }
    }
}

impl Setup<NativeEndian> {
    /// Builds a native-endian setup packet; the request-type byte is composed of
    /// `setupdirection`, `setuptype` and `setuprecipient`.
    pub fn new(
        setupdirection: SetupDirection,
        setuptype: SetupType,
        setuprecipient: SetupRecipient,
        request: u8,
        value: u16,
        index: u16,
        length: u16,
    ) -> (r: Setup<NativeEndian>)
        ensures
            r.bmRequestType == request_type(setupdirection, setuptype, setuprecipient),
            r.bRequest == request,
            r.wValue == value,
            r.wIndex == index,
            r.wLength == length,
    {
        Setup {
            bmRequestType: request_type_byte(setupdirection, setuptype, setuprecipient),
            bRequest: request,
            wValue: value,
            wIndex: index,
            wLength: length,
            endian: PhantomData,
        }
    }
}

impl From<Setup<NativeEndian>> for Setup<BusEndian> {
    fn from(f: Setup<NativeEndian>) -> (r: Setup<BusEndian>) {
        f.recast()
    }
}

impl vstd::std_specs::convert::FromSpecImpl<Setup<NativeEndian>> for Setup<BusEndian> {
    open spec fn obeys_from_spec() -> bool {
        true
    }

    open spec fn from_spec(f: Setup<NativeEndian>) -> Setup<BusEndian> {
        f.spec_recast()
    }
}

impl From<Setup<BusEndian>> for Setup<NativeEndian> {
    fn from(f: Setup<BusEndian>) -> (r: Setup<NativeEndian>) {
        f.recast()
    }
}

impl vstd::std_specs::convert::FromSpecImpl<Setup<BusEndian>> for Setup<NativeEndian> {
    open spec fn obeys_from_spec() -> bool {
        true
    }

    open spec fn from_spec(f: Setup<BusEndian>) -> Setup<NativeEndian> {
        f.spec_recast()
    }
}

/// The eight bytes of a setup packet as they stand on the bus.
pub open spec fn setup_bytes(s: Setup<BusEndian>) -> Seq<u8> {
    seq![
        s.bmRequestType,
        s.bRequest,
        lo_byte(s.wValue),
        hi_byte(s.wValue),
        lo_byte(s.wIndex),
        hi_byte(s.wIndex),
        lo_byte(s.wLength),
        hi_byte(s.wLength),
    ]
}

/// The setup packet that the first eight bytes of `b` hold.
pub open spec fn setup_from_bytes(b: Seq<u8>) -> Setup<BusEndian>
    recommends
        b.len() >= 8,
{
    Setup {
        bmRequestType: b[0],
        bRequest: b[1],
        wValue: le_u16(b[2], b[3]),
        wIndex: le_u16(b[4], b[5]),
        wLength: le_u16(b[6], b[7]),
        endian: PhantomData,
    }
}

/// Writes a bus-endian setup packet over the first eight bytes of `buf`; the rest of
/// `buf` is left as it was.
pub fn write_setup_struct(setup: &Setup<BusEndian>, buf: &mut Vec<u8>)
    requires
        old(buf)@.len() >= 8,
    ensures
        final(buf)@ == setup_bytes(*setup) + old(buf)@.subrange(8, old(buf)@.len() as int),
{
    let (v0, v1) = to_le_bytes16(setup.wValue);
    let (i0, i1) = to_le_bytes16(setup.wIndex);
    let (l0, l1) = to_le_bytes16(setup.wLength);
    buf[0] = setup.bmRequestType;
    buf[1] = setup.bRequest;
    buf[2] = v0;
    buf[3] = v1;
    buf[4] = i0;
    buf[5] = i1;
    buf[6] = l0;
    buf[7] = l1;
    assert(final(buf)@ =~= setup_bytes(*setup) + old(buf)@.subrange(8, old(buf)@.len() as int));
}

/// Reads the bus-endian setup packet at the head of `buf`; `None` when `buf` is shorter
/// than eight bytes.
pub fn read_setup_struct(buf: &[u8]) -> (r: Option<Setup<BusEndian>>)
    ensures
        r == (if buf@.len() >= 8 {
            Some(setup_from_bytes(buf@))
        } else {
            None::<Setup<BusEndian>>
        }),
{
    if buf.len() < 8 {
        return None;
    }
    Some(Setup {
        bmRequestType: buf[0],
        bRequest: buf[1],
        wValue: from_le_bytes16(buf[2], buf[3]),
        wIndex: from_le_bytes16(buf[4], buf[5]),
        wLength: from_le_bytes16(buf[6], buf[7]),
        endian: PhantomData,
    })
}

/// Laying a setup packet out on the bus and reading it back gives every field back.
pub proof fn lemma_setup_bytes_round_trip(s: Setup<BusEndian>)
    ensures
        setup_bytes(s).len() == 8,
        setup_from_bytes(setup_bytes(s)) == s,
{
    lemma_le_u16_round_trip(s.wValue);
    lemma_le_u16_round_trip(s.wIndex);
    lemma_le_u16_round_trip(s.wLength);
}

/// Reading a setup packet from eight bytes and laying it out again gives the same bytes.
pub proof fn lemma_setup_from_bytes_round_trip(b: Seq<u8>)
    requires
        b.len() >= 8,
    ensures
        setup_bytes(setup_from_bytes(b)) == b.subrange(0, 8),
{
    lemma_le_bytes_round_trip(b[2], b[3]);
    lemma_le_bytes_round_trip(b[4], b[5]);
    lemma_le_bytes_round_trip(b[6], b[7]);
    assert(setup_bytes(setup_from_bytes(b)) =~= b.subrange(0, 8));
}

/// A native setup packet taken to bus form, laid out in bytes, read back and taken to
/// native form again, equals the one built.
pub proof fn lemma_setup_native_round_trip(s: Setup<NativeEndian>)
    ensures
        setup_from_bytes(setup_bytes(s.spec_recast::<BusEndian>())).spec_recast::<NativeEndian>() == s,
{
    lemma_setup_bytes_round_trip(s.spec_recast::<BusEndian>());
}


/// The standard device descriptor, eighteen bytes that every USB device reports.
#[allow(non_snake_case)]
#[derive(Debug)]
pub struct DeviceDescriptor<E> {
    pub bLength: u8,
    pub bDescriptorType: u8,
    pub bcdUSB: u16,
    pub bDeviceClass: u8,
    pub bDeviceSubClass: u8,
    pub bDeviceProtocol: u8,
    pub bMaxPacketSize0: u8,
    pub idVendor: u16,
    pub idProduct: u16,
    pub bcdDevice: u16,
    pub iManufacturer: u8,
    pub iProduct: u8,
    pub iSerialNumber: u8,
    pub bNumConfigurations: u8,
    pub endian: PhantomData<E>,
}

impl<E> Clone for DeviceDescriptor<E> {
    fn clone(&self) -> (r: Self) {
        *self
    }
}

impl<E> Copy for DeviceDescriptor<E> {

}

impl<E> DeviceDescriptor<E> {
    /// The same fields in another form.
    pub open spec fn spec_recast<F>(self) -> DeviceDescriptor<F> {
        DeviceDescriptor {
            bLength: self.bLength,
            bDescriptorType: self.bDescriptorType,
            bcdUSB: self.bcdUSB,
            bDeviceClass: self.bDeviceClass,
            bDeviceSubClass: self.bDeviceSubClass,
            bDeviceProtocol: self.bDeviceProtocol,
            bMaxPacketSize0: self.bMaxPacketSize0,
            idVendor: self.idVendor,
            idProduct: self.idProduct,
            bcdDevice: self.bcdDevice,
            iManufacturer: self.iManufacturer,
            iProduct: self.iProduct,
            iSerialNumber: self.iSerialNumber,
            bNumConfigurations: self.bNumConfigurations,
            endian: PhantomData,
        }
    }
}

impl From<DeviceDescriptor<BusEndian>> for DeviceDescriptor<NativeEndian> {
    fn from(f: DeviceDescriptor<BusEndian>) -> (r: DeviceDescriptor<NativeEndian>) {
        DeviceDescriptor {
            bLength: f.bLength,
            bDescriptorType: f.bDescriptorType,
            bcdUSB: f.bcdUSB,
            bDeviceClass: f.bDeviceClass,
            bDeviceSubClass: f.bDeviceSubClass,
            bDeviceProtocol: f.bDeviceProtocol,
            bMaxPacketSize0: f.bMaxPacketSize0,
            idVendor: f.idVendor,
            idProduct: f.idProduct,
            bcdDevice: f.bcdDevice,
            iManufacturer: f.iManufacturer,
            iProduct: f.iProduct,
            iSerialNumber: f.iSerialNumber,
            bNumConfigurations: f.bNumConfigurations,
            endian: PhantomData,
        }
    }
}

impl vstd::std_specs::convert::FromSpecImpl<DeviceDescriptor<BusEndian>> for DeviceDescriptor<NativeEndian> {
    open spec fn obeys_from_spec() -> bool {
        true
    }

    open spec fn from_spec(f: DeviceDescriptor<BusEndian>) -> DeviceDescriptor<NativeEndian> {
        f.spec_recast()
    }
}

/// Length in bytes of a device descriptor.
pub const DEVICE_DESCRIPTOR_LEN: usize = 18;

/// The device descriptor that the first eighteen bytes of `b` hold, in bus order.
pub open spec fn device_descriptor_from_bytes(b: Seq<u8>) -> DeviceDescriptor<BusEndian>
    recommends
        b.len() >= 18,
{
    DeviceDescriptor {
        bLength: b[0],
        bDescriptorType: b[1],
        bcdUSB: le_u16(b[2], b[3]),
        bDeviceClass: b[4],
        bDeviceSubClass: b[5],
        bDeviceProtocol: b[6],
        bMaxPacketSize0: b[7],
        idVendor: le_u16(b[8], b[9]),
        idProduct: le_u16(b[10], b[11]),
        bcdDevice: le_u16(b[12], b[13]),
        iManufacturer: b[14],
        iProduct: b[15],
        iSerialNumber: b[16],
        bNumConfigurations: b[17],
        endian: PhantomData,
    }
}

/// Reads a device descriptor from the bytes a device reported; `None` when fewer than
/// eighteen bytes are given.
pub fn read_device_descriptor(buf: &[u8]) -> (r: Option<DeviceDescriptor<BusEndian>>)
    ensures
        r == (if buf@.len() >= DEVICE_DESCRIPTOR_LEN {
            Some(device_descriptor_from_bytes(buf@))
        } else {
            None::<DeviceDescriptor<BusEndian>>
        }),
{
    if buf.len() < DEVICE_DESCRIPTOR_LEN {
        return None;
    }
    Some(DeviceDescriptor {
        bLength: buf[0],
        bDescriptorType: buf[1],
        bcdUSB: from_le_bytes16(buf[2], buf[3]),
        bDeviceClass: buf[4],
        bDeviceSubClass: buf[5],
        bDeviceProtocol: buf[6],
        bMaxPacketSize0: buf[7],
        idVendor: from_le_bytes16(buf[8], buf[9]),
        idProduct: from_le_bytes16(buf[10], buf[11]),
        bcdDevice: from_le_bytes16(buf[12], buf[13]),
        iManufacturer: buf[14],
        iProduct: buf[15],
        iSerialNumber: buf[16],
        bNumConfigurations: buf[17],
        endian: PhantomData,
    })
}

} // verus!
