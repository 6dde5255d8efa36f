use vstd::prelude::*;
use vstd::string::StringSliceAdditionalSpecFns;

verus! {

/// Whether the bytes `b` begin with `usb`.
pub open spec fn starts_with_usb(b: Seq<u8>) -> bool {
    b.len() >= 3 && b[0] == 0x75u8 && b[1] == 0x73u8 && b[2] == 0x62u8
}

/// Whether the bytes `b` hold a colon.
pub open spec fn has_colon(b: Seq<u8>) -> bool {
    exists|i: int| 0 <= i < b.len() && b[i] == 0x3au8
}

/// Whether a directory name under the USB device tree names a device: root hubs' bus
/// entries start with `usb`, and interfaces hold a colon.
pub fn is_device_dirname(name: &str) -> (r: bool)
    ensures
        r == (!starts_with_usb(name.spec_bytes()) && !has_colon(name.spec_bytes())),
{
    let b = name.as_bytes();
    if b.len() >= 3 && b[0] == 0x75u8 && b[1] == 0x73u8 && b[2] == 0x62u8 {
        return false;
    }
    let mut i: usize = 0;
    while i < b.len()
        invariant
            i <= b@.len(),
            b@ == name.spec_bytes(),
            forall|j: int| 0 <= j < i ==> b@[j] != 0x3au8,
        decreases b@.len() - i,
    {
        if b[i] == 0x3au8 {
            return false;
        }
        i = i + 1;
    }
    true
}

} // verus!
