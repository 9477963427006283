use vstd::prelude::*;

use crate::info::{is_mirabox_vendor, spec_is_mirabox_vendor, Kind};

verus! {

/// One entry of the transport's device list, as plain values
pub struct HidEntry {
    /// USB vendor ID
    pub vendor_id: u16,
    /// USB product ID
    pub product_id: u16,
    /// Serial number string, if the device reports one
    pub serial_number: Option<String>,
}

/// The supported device an entry stands for, as (kind, serial)
pub open spec fn entry_device(e: HidEntry) -> Option<(Kind, Seq<char>)> {
    if !spec_is_mirabox_vendor(e.vendor_id) {
        None
    } else {
        match (e.serial_number, Kind::spec_from_vid_pid(e.vendor_id, e.product_id)) {
            (Some(s), Some(k)) => Some((k, s@)),
            _ => None,
        }
    }
}

/// A device list as (kind, serial) pairs
pub open spec fn devices_view(d: Seq<(Kind, String)>) -> Seq<(Kind, Seq<char>)> {
    d.map_values(|x: (Kind, String)| (x.0, x.1@))
}

/// No pair occurs twice
pub open spec fn no_duplicates(d: Seq<(Kind, Seq<char>)>) -> bool {
    forall|i: int, j: int| 0 <= i < j < d.len() ==> d[i] != d[j]
}

/// Returns the supported devices of a device list as (Kind, Serial Number), each once
pub fn select_devices(entries: &Vec<HidEntry>) -> (r: Vec<(Kind, String)>)
    ensures
        no_duplicates(devices_view(r@)),
        forall|d: (Kind, Seq<char>)|
            devices_view(r@).contains(d) <==> exists|i: int|
                0 <= i < entries@.len() && entry_device(#[trigger] entries@[i]) == Some(d),
{
    let mut out: Vec<(Kind, String)> = Vec::new();
    let mut i: usize = 0;
    while i < entries.len()
        invariant
            i <= entries@.len(),
            no_duplicates(devices_view(out@)),
            forall|d: (Kind, Seq<char>)|
                devices_view(out@).contains(d) <==> exists|j: int|
                    0 <= j < i && entry_device(#[trigger] entries@[j]) == Some(d),
        decreases entries@.len() - i,
    {
        let e = &entries[i];
        let ghost before = devices_view(out@);
        if is_mirabox_vendor(e.vendor_id) {
            if let Some(serial) = &e.serial_number {
                if let Some(kind) = Kind::from_vid_pid(e.vendor_id, e.product_id) {
                    let ghost d = (kind, serial@);
                    let mut found = false;
                    let mut k: usize = 0;
                    while k < out.len()
                        invariant
                            k <= out@.len(),
                            before == devices_view(out@),
                            d == (kind, serial@),
                            found <==> exists|m: int| 0 <= m < k && before[m] == d,
                        decreases out@.len() - k,
                    {
                        let same_kind = out[k].0 == kind;
                        let same_serial = out[k].1 == *serial;
                        let same = same_kind && same_serial;
                        assert(same_kind <==> out@[k as int].0 == kind);
                        assert(same_serial <==> out@[k as int].1@ == serial@);
                        assert(before[k as int] == (out@[k as int].0, out@[k as int].1@));
                        assert(same <==> before[k as int] == d);
                        if same {
                            found = true;
                        }
                        k = k + 1;
                        assert(found <==> exists|m: int| 0 <= m < k && before[m] == d) by {
                            if exists|m: int| 0 <= m < k && before[m] == d {
                                let m = choose|m: int| 0 <= m < k && before[m] == d;
                                if m < k - 1 {
                                    assert(exists|m2: int| 0 <= m2 < k - 1 && before[m2] == d);
                                }
                            }
                        }
                    }
                    if !found {
                        out.push((kind, serial.clone()));
                        assert(devices_view(out@) =~= before.push(d));
                    }
                    assert(entry_device(entries@[i as int]) == Some(d));
                    assert forall|x: (Kind, Seq<char>)|
                        devices_view(out@).contains(x) <==> exists|j: int|
                            0 <= j < i + 1 && entry_device(#[trigger] entries@[j]) == Some(x) by {
                        if devices_view(out@).contains(x) && x != d {
                            let m = choose|m: int| 0 <= m < devices_view(out@).len() && devices_view(out@)[m] == x;
                            if !found {
                                assert(before[m] == x);
                            }
                            assert(before.contains(x));
                        }
                        if x == d {
                            if found {
                                let m = choose|m: int| 0 <= m < k && before[m] == d;
                                assert(devices_view(out@)[m] == x);
                            } else {
                                assert(devices_view(out@)[before.len() as int] == x);
                            }
                        }
                        if exists|j: int| 0 <= j < i && entry_device(#[trigger] entries@[j]) == Some(x) {
                            assert(before.contains(x));
                            let m = choose|m: int| 0 <= m < before.len() && before[m] == x;
                            assert(devices_view(out@)[m] == x);
                        }
                    }
                    i = i + 1;
                    continue;
                }
            }
        }
        assert(entry_device(entries@[i as int]) is None);
        assert forall|x: (Kind, Seq<char>)|
            devices_view(out@).contains(x) <==> exists|j: int|
                0 <= j < i + 1 && entry_device(#[trigger] entries@[j]) == Some(x) by {
            if exists|j: int| 0 <= j < i + 1 && entry_device(#[trigger] entries@[j]) == Some(x) {
                let j = choose|j: int| 0 <= j < i + 1 && entry_device(#[trigger] entries@[j]) == Some(x);
                assert(j < i);
            }
        }
        i = i + 1;
    }
    out
}

} // verus!
