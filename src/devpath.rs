use vstd::prelude::*;

verus! {

/// The ASCII digit for `d` (below ten).
pub open spec fn digit(d: nat) -> u8 {
    (48 + d) as u8
}

/// The decimal digits of `n`, most significant first, without leading zeros.
pub open spec fn decimal(n: nat) -> Seq<u8>
    decreases n,
{
    if n < 10 {
        seq![digit(n)]
    } else {
        decimal(n / 10).push(digit(n % 10))
    }
}

/// The decimal digits of `n`, with zeros in front to make at least `width` digits.
pub open spec fn zero_padded(n: nat, width: nat) -> Seq<u8> {
    let d = decimal(n);
    if d.len() < width {
        Seq::new((width - d.len()) as nat, |i: int| 48u8) + d
    } else {
        d
    }
}

fn push_bytes(out: &mut Vec<u8>, src: &[u8])
    ensures
        final(out)@ == old(out)@ + src@,
{
    let mut i: usize = 0;
    while i < src.len()
        invariant
            i <= src@.len(),
            out@ == old(out)@ + src@.subrange(0, i as int),
        decreases src@.len() - i,
    {
        out.push(src[i]);
        i = i + 1;
        assert(out@ =~= old(out)@ + src@.subrange(0, i as int));
    }
    assert(src@.subrange(0, src@.len() as int) =~= src@);
}

fn decimal_len(n: u32) -> (r: usize)
    ensures
        r == decimal(n as nat).len(),
        1 <= r <= 1 + n / 10,
    decreases n,
{
    if n < 10 {
        1
    } else {
        decimal_len(n / 10) + 1
    }
}

fn push_decimal(out: &mut Vec<u8>, n: u32)
    ensures
        final(out)@ == old(out)@ + decimal(n as nat),
    decreases n,
{
    if n >= 10 {
        push_decimal(out, n / 10);
    }
    out.push((48 + n % 10) as u8);
    assert(final(out)@ =~= old(out)@ + decimal(n as nat));
}

fn push_zero_padded(out: &mut Vec<u8>, n: u32, width: usize)
    ensures
        final(out)@ == old(out)@ + zero_padded(n as nat, width as nat),
{
    let len = decimal_len(n);
    let ghost start = out@;
    let mut k: usize = len;
    while k < width
        invariant
            len <= k <= (if width > len { width } else { len }),
            len == decimal(n as nat).len(),
            out@ == start + Seq::new((k - len) as nat, |i: int| 48u8),
        decreases width - k,
    {
        out.push(48u8);
        k = k + 1;
        assert(out@ =~= start + Seq::new((k - len) as nat, |i: int| 48u8));
    }
    let ghost padded = out@;
    push_decimal(out, n);
    if len < width {
        assert(out@ =~= start + zero_padded(n as nat, width as nat));
    } else {
        assert(Seq::new((k - len) as nat, |i: int| 48u8) =~= Seq::<u8>::empty());
        assert(out@ =~= start + zero_padded(n as nat, width as nat));
    }
}

/// `/dev/bus/usb/`
pub open spec fn dev_bus_usb() -> Seq<u8> {
    seq![0x2fu8, 0x64, 0x65, 0x76, 0x2f, 0x62, 0x75, 0x73, 0x2f, 0x75, 0x73, 0x62, 0x2f]
}

/// `/dev/usbdev`
pub open spec fn dev_usbdev() -> Seq<u8> {
    seq![0x2fu8, 0x64, 0x65, 0x76, 0x2f, 0x75, 0x73, 0x62, 0x64, 0x65, 0x76]
}

/// `/proc/bus/usb/`
pub open spec fn proc_bus_usb() -> Seq<u8> {
    seq![0x2fu8, 0x70, 0x72, 0x6f, 0x63, 0x2f, 0x62, 0x75, 0x73, 0x2f, 0x75, 0x73, 0x62, 0x2f]
}

/// The device-file paths of device `devnum` on bus `busnum`, in the order they are tried:
/// `/dev/bus/usb/BBB/DDD`, `/dev/usbdevBBB.DDD`, `/proc/bus/usb/BBB/DDD`, where `BBB` and
/// `DDD` are the numbers padded with zeros to three digits.
pub open spec fn device_paths(busnum: u32, devnum: u32) -> Seq<Seq<u8>> {
    seq![
        dev_bus_usb() + zero_padded(busnum as nat, 3) + seq![0x2fu8] + zero_padded(devnum as nat, 3),
        dev_usbdev() + zero_padded(busnum as nat, 3) + seq![0x2eu8] + zero_padded(devnum as nat, 3),
        proc_bus_usb() + zero_padded(busnum as nat, 3) + seq![0x2fu8] + zero_padded(devnum as nat, 3),
    ]
}

/// The device-file paths of device `devnum` on bus `busnum`, as ASCII bytes, in the order
/// they are to be tried.
pub fn device_path_candidates(busnum: u32, devnum: u32) -> (r: Vec<Vec<u8>>)
    ensures
        r@.len() == 3,
        forall|i: int| 0 <= i < 3 ==> #[trigger] r@[i]@ == device_paths(busnum, devnum)[i],
{
    let dev_bus: [u8; 13] = [0x2f, 0x64, 0x65, 0x76, 0x2f, 0x62, 0x75, 0x73, 0x2f, 0x75, 0x73, 0x62, 0x2f];
    let usbdev: [u8; 11] = [0x2f, 0x64, 0x65, 0x76, 0x2f, 0x75, 0x73, 0x62, 0x64, 0x65, 0x76];
    let proc_bus: [u8; 14] = [0x2f, 0x70, 0x72, 0x6f, 0x63, 0x2f, 0x62, 0x75, 0x73, 0x2f, 0x75, 0x73, 0x62, 0x2f];
    assert(dev_bus@ =~= dev_bus_usb());
    assert(usbdev@ =~= dev_usbdev());
    assert(proc_bus@ =~= proc_bus_usb());

    let mut first: Vec<u8> = Vec::new();
    push_bytes(&mut first, dev_bus.as_slice());
    push_zero_padded(&mut first, busnum, 3);
    first.push(0x2f);
    push_zero_padded(&mut first, devnum, 3);

    let mut second: Vec<u8> = Vec::new();
    push_bytes(&mut second, usbdev.as_slice());
    push_zero_padded(&mut second, busnum, 3);
    second.push(0x2e);
    push_zero_padded(&mut second, devnum, 3);

    let mut third: Vec<u8> = Vec::new();
    push_bytes(&mut third, proc_bus.as_slice());
    push_zero_padded(&mut third, busnum, 3);
    third.push(0x2f);
    push_zero_padded(&mut third, devnum, 3);

    let ghost paths = device_paths(busnum, devnum);
    assert(first@ =~= paths[0]);
    assert(second@ =~= paths[1]);
    assert(third@ =~= paths[2]);
    let r = vec![first, second, third];
    assert(r@[0]@ == paths[0]);
    r
}

} // verus!
