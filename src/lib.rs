//! Userland access to USB devices through the kernel's usbfs character-device interface.
//!
//! The library holds the parts of the interface that are pure logic: the wire records
//! (request blocks, packet descriptors, setup packets, device descriptors) and their byte
//! layouts, the transfer kinds that bind a buffer to a request block, the isochronous
//! windowing of a buffer into packets, and the slot table that correlates kernel
//! completions with the transfers that produced them.

pub mod usbtypes;
pub use usbtypes::{
    read_device_descriptor, read_setup_struct, request_type_byte, write_setup_struct, BusEndian,
    DeviceDescriptor, NativeEndian, Setup, SetupDirection, SetupRecipient, SetupType,
    DEVICE_DESCRIPTOR_LEN,
};

pub mod devfs;
pub use devfs::{
    errno_of, status_to_nixresult, Completion, CtrlTransfer, IsoPacketDesc, SetInterface, Urb,
    UrbFlags, UrbType, STATUS_UNSET, URB_ALL_FLAGS, URB_BULK_CONTINUATION, URB_ISO_ASAP,
    URB_NO_FSBR, URB_NO_INTERRUPT, URB_SHORT_NOT_OK, URB_ZERO_PACKET,
};

pub mod asyncdevice;
pub use asyncdevice::{reap_error, ReapError, Transfer, TransferSlots, EAGAIN};

pub mod monotransfer;
pub use monotransfer::{
    BulkTransfer, BulkTransferMut, ControlTransferMut, InterruptTransfer, InterruptTransferMut,
};

pub mod isobuftransfer;
pub use isobuftransfer::IsoBufTransfer;

pub mod stdbuftransfer;
pub use stdbuftransfer::StdBufTransfer;

pub mod deviceinfo;
pub use deviceinfo::is_device_dirname;

pub mod devpath;
pub use devpath::device_path_candidates;
