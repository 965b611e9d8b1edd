//! Finding the monitor among the devices attached to the host.

use vstd::prelude::*;

verus! {

/// The vendor id of the monitor's USB interface.
pub const M27Q_VID: u16 = 0x2109;

/// The product id of the monitor's USB interface.
pub const M27Q_PID: u16 = 0x8883;

/// The pair of ids by which a USB device tells what it is.
#[derive(Copy, Clone, Debug, PartialEq, Eq, Structural)]
pub struct DeviceId {
    pub vendor_id: u16,
    pub product_id: u16,
}

/// Whether an attached device is the one looked for. A device whose
/// descriptor could not be read is `None` and is never a match.
pub open spec fn is_match(device: Option<DeviceId>, vendor_id: u16, product_id: u16) -> bool {
    device == Some(DeviceId { vendor_id, product_id })
}

/// Whether position `i` holds the first device with the given ids.
pub open spec fn is_first_match(
    devices: Seq<Option<DeviceId>>,
    vendor_id: u16,
    product_id: u16,
    i: int,
) -> bool {
    &&& 0 <= i < devices.len()
    &&& is_match(devices[i], vendor_id, product_id)
    &&& forall|j: int| 0 <= j < i ==> !is_match(#[trigger] devices[j], vendor_id, product_id)
}

/// The position of the first device with the given ids, in the order in which
/// the host listed the devices; `None` where no device has them.
pub open spec fn first_match(devices: Seq<Option<DeviceId>>, vendor_id: u16, product_id: u16) -> Option<int> {
    if exists|i: int| is_first_match(devices, vendor_id, product_id, i) {
        Some(choose|i: int| is_first_match(devices, vendor_id, product_id, i))
    } else {
        None
    }
}

/// `first_match` is the one position that `is_first_match` accepts, and it is
/// `None` exactly when no device matches at all.
pub proof fn lemma_first_match(devices: Seq<Option<DeviceId>>, vendor_id: u16, product_id: u16)
    ensures
        match first_match(devices, vendor_id, product_id) {
            Some(i) => is_first_match(devices, vendor_id, product_id, i),
            None => forall|j: int|
                0 <= j < devices.len() ==> !is_match(#[trigger] devices[j], vendor_id, product_id),
        },
        forall|i: int|
            is_first_match(devices, vendor_id, product_id, i) ==> first_match(
                devices,
                vendor_id,
                product_id,
            ) == Some(i),
{
    if first_match(devices, vendor_id, product_id) is None {
        assert forall|j: int| 0 <= j < devices.len() implies !is_match(
            #[trigger] devices[j],
            vendor_id,
            product_id,
        ) by {
            if is_match(devices[j], vendor_id, product_id) {
                lemma_match_has_first(devices, vendor_id, product_id, j);
            }
        }
    }
    assert forall|i: int| is_first_match(devices, vendor_id, product_id, i) implies first_match(
        devices,
        vendor_id,
        product_id,
    ) == Some(i) by {
        // two first matches cannot differ: the later one would have the
        // earlier one before it
        let chosen = choose|k: int| is_first_match(devices, vendor_id, product_id, k);
        assert(!(chosen < i) && !(i < chosen));
    }
}

/// Where some device matches at position `j`, there is a first match at or
/// before `j`.
proof fn lemma_match_has_first(
    devices: Seq<Option<DeviceId>>,
    vendor_id: u16,
    product_id: u16,
    j: int,
)
    requires
        0 <= j < devices.len(),
        is_match(devices[j], vendor_id, product_id),
    ensures
        exists|i: int| 0 <= i <= j && is_first_match(devices, vendor_id, product_id, i),
    decreases j,
{
    if exists|k: int| 0 <= k < j && is_match(#[trigger] devices[k], vendor_id, product_id) {
        let k = choose|k: int| 0 <= k < j && is_match(#[trigger] devices[k], vendor_id, product_id);
        lemma_match_has_first(devices, vendor_id, product_id, k);
    } else {
        assert(is_first_match(devices, vendor_id, product_id, j));
    }
}

/// Looks for the first device with the given ids. Devices whose descriptor
/// could not be read are passed over.
pub fn find_device(devices: &Vec<Option<DeviceId>>, vendor_id: u16, product_id: u16) -> (found: Option<usize>)
    ensures
        match found {
            Some(i) => is_first_match(devices@, vendor_id, product_id, i as int),
            None => forall|j: int|
                0 <= j < devices@.len() ==> !is_match(#[trigger] devices@[j], vendor_id, product_id),
        },
        first_match(devices@, vendor_id, product_id) == match found {
            Some(i) => Some(i as int),
            None => None,
        },
{
    let mut i: usize = 0;
    while i < devices.len()
        invariant
            i <= devices@.len(),
            forall|j: int| 0 <= j < i ==> !is_match(#[trigger] devices@[j], vendor_id, product_id),
        decreases devices@.len() - i,
    {
        if let Some(id) = devices[i] {
            if id.vendor_id == vendor_id && id.product_id == product_id {
                proof {
                    lemma_first_match(devices@, vendor_id, product_id);
                }
                return Some(i);
            }
        }
        i = i + 1;
    }
    proof {
        lemma_first_match(devices@, vendor_id, product_id);
    }
    None
}

} // verus!
