//! Finding keyboards among the HID interfaces that are attached.
//!
//! The caller lists the interfaces; what is chosen from the list is
//! decided here.

use vstd::prelude::*;
use crate::error::Error;

verus! {

/// The usage page under which a keyboard offers the configuration
/// interface.
pub const VIA_USAGE_PAGE: u16 = 0xff60;

/// What identifies an attached HID interface.
#[derive(Clone, Debug, PartialEq, Eq)]
pub struct DeviceIdentity {
    pub vendor_id: u16,
    pub product_id: u16,
    pub usage_page: u16,
    pub manufacturer: Option<String>,
    pub product: Option<String>,
    pub serial_number: Option<String>,
}

/// Which interfaces are wanted: those of one usage page, narrowed to a
/// vendor or a product where one is given.
#[derive(Clone, Copy, Debug, PartialEq, Eq)]
pub struct Filter {
    pub usage_page: u16,
    pub vendor_id: Option<u16>,
    pub product_id: Option<u16>,
}

impl Filter {
    /// Whether the interface is wanted.
    pub open spec fn admits(self, device: DeviceIdentity) -> bool {
        &&& device.usage_page == self.usage_page
        &&& self.vendor_id is Some ==> device.vendor_id == self.vendor_id->Some_0
        &&& self.product_id is Some ==> device.product_id == self.product_id->Some_0
    }

    /// The filter for every keyboard that offers the configuration
    /// interface.
    pub fn keyboards() -> (filter: Filter)
        ensures
            filter == (Filter { usage_page: VIA_USAGE_PAGE, vendor_id: None, product_id: None }),
    {
        Filter { usage_page: VIA_USAGE_PAGE, vendor_id: None, product_id: None }
    }

    /// The filter for one interface of one device.
    pub fn exactly(vendor_id: u16, product_id: u16, usage_page: u16) -> (filter: Filter)
        ensures
            filter == (Filter {
                usage_page,
                vendor_id: Some(vendor_id),
                product_id: Some(product_id),
            }),
    {
        Filter { usage_page, vendor_id: Some(vendor_id), product_id: Some(product_id) }
    }

    /// Whether the interface is wanted.
    pub fn matches(&self, device: &DeviceIdentity) -> (yes: bool)
        ensures
            yes == self.admits(*device),
    {
        if device.usage_page != self.usage_page {
            return false;
        }
        let vendor_fits = match self.vendor_id {
            Some(id) => device.vendor_id == id,
            None => true,
        };
        let product_fits = match self.product_id {
            Some(id) => device.product_id == id,
            None => true,
        };
        vendor_fits && product_fits
    }
}

/// The wanted interfaces among `devices`, in the order of the list.
pub open spec fn selected(devices: Seq<DeviceIdentity>, filter: Filter) -> Seq<DeviceIdentity>
    decreases devices.len(),
{
    if devices.len() == 0 {
        Seq::empty()
    } else if filter.admits(devices.last()) {
        selected(devices.drop_last(), filter).push(devices.last())
    } else {
        selected(devices.drop_last(), filter)
    }
}

/// Exactly the wanted interfaces are selected: every selected one is
/// wanted and stands in the list, and every wanted one of the list is
/// selected.  Where none is wanted, none is selected.
pub proof fn lemma_selected_exactly(devices: Seq<DeviceIdentity>, filter: Filter)
    ensures
        forall|d: DeviceIdentity| #[trigger]
            selected(devices, filter).contains(d) <==> devices.contains(d) && filter.admits(d),
        selected(devices, filter).len() <= devices.len(),
        (forall|i: int| 0 <= i < devices.len() ==> !filter.admits(#[trigger] devices[i]))
            ==> selected(devices, filter).len() == 0,
    decreases devices.len(),
{
    if devices.len() > 0 {
        let front = devices.drop_last();
        let last = devices.last();
        lemma_selected_exactly(front, filter);
        assert forall|d: DeviceIdentity| #[trigger]
            selected(devices, filter).contains(d) <==> devices.contains(d) && filter.admits(
                d,
            ) by {
            if devices.contains(d) {
                let i = choose|i: int| 0 <= i < devices.len() && devices[i] == d;
                if i < front.len() {
                    assert(front[i] == d);
                }
            }
            if front.contains(d) {
                let i = choose|i: int| 0 <= i < front.len() && front[i] == d;
                assert(devices[i] == d);
            }
            assert(devices[devices.len() - 1] == last);
            if filter.admits(last) {
                let chosen = selected(front, filter);
                assert(selected(devices, filter) == chosen.push(last));
                if chosen.push(last).contains(d) {
                    let i = choose|i: int| 0 <= i < chosen.push(last).len() && chosen.push(
                        last,
                    )[i] == d;
                    if i < chosen.len() {
                        assert(chosen[i] == d);
                    }
                }
                if chosen.contains(d) {
                    let i = choose|i: int| 0 <= i < chosen.len() && chosen[i] == d;
                    assert(chosen.push(last)[i] == d);
                }
                assert(chosen.push(last)[chosen.len() as int] == last);
            }
        }
        assert(devices[devices.len() - 1] == last);
        assert forall|i: int| 0 <= i < front.len() implies front[i] == devices[i] by {}
    }
}

/// A copy of an optional text.
fn copy_text(text: &Option<String>) -> (copy: Option<String>)
    ensures
        copy == *text,
{
    match text {
        Some(s) => Some(s.clone()),
        None => None,
    }
}

/// A copy of an identity.
fn copy_identity(device: &DeviceIdentity) -> (copy: DeviceIdentity)
    ensures
        copy == *device,
{
    DeviceIdentity {
        vendor_id: device.vendor_id,
        product_id: device.product_id,
        usage_page: device.usage_page,
        manufacturer: copy_text(&device.manufacturer),
        product: copy_text(&device.product),
        serial_number: copy_text(&device.serial_number),
    }
}

/// The wanted interfaces among those attached, in the order in which they
/// were listed; none if none is wanted.
pub fn scan(devices: &Vec<DeviceIdentity>, filter: &Filter) -> (found: Vec<DeviceIdentity>)
    ensures
        found@ == selected(devices@, *filter),
{
    let mut found: Vec<DeviceIdentity> = Vec::new();
    let mut i: usize = 0;
    while i < devices.len()
        invariant
            i <= devices@.len(),
            found@ == selected(devices@.subrange(0, i as int), *filter),
        decreases devices@.len() - i,
    {
        assert(devices@.subrange(0, i + 1).drop_last() =~= devices@.subrange(0, i as int));
        assert(devices@.subrange(0, i + 1).last() == devices@[i as int]);
        if filter.matches(&devices[i]) {
            found.push(copy_identity(&devices[i]));
        }
        i += 1;
    }
    assert(devices@.subrange(0, devices@.len() as int) =~= devices@);
    found
}

/// The place in the list of the interface to open: the first one with the
/// given vendor id, product id and usage page.  A device may offer several
/// interfaces; only the usage page tells them apart.
pub fn select(devices: &Vec<DeviceIdentity>, vendor_id: u16, product_id: u16, usage_page: u16) -> (place:
    Result<usize, Error>)
    ensures
        match place {
            Ok(i) => {
                &&& i < devices@.len()
                &&& Filter {
                    usage_page,
                    vendor_id: Some(vendor_id),
                    product_id: Some(product_id),
                }.admits(devices@[i as int])
                &&& forall|j: int|
                    0 <= j < i ==> !(Filter {
                        usage_page,
                        vendor_id: Some(vendor_id),
                        product_id: Some(product_id),
                    }).admits(#[trigger] devices@[j])
            },
            Err(e) => {
                &&& e == Error::DeviceNotFound
                &&& forall|j: int|
                    0 <= j < devices@.len() ==> !(Filter {
                        usage_page,
                        vendor_id: Some(vendor_id),
                        product_id: Some(product_id),
                    }).admits(#[trigger] devices@[j])
            },
        },
{
    let filter = Filter::exactly(vendor_id, product_id, usage_page);
    let mut i: usize = 0;
    while i < devices.len()
        invariant
            i <= devices@.len(),
            filter == (Filter {
                usage_page,
                vendor_id: Some(vendor_id),
                product_id: Some(product_id),
            }),
            forall|j: int| 0 <= j < i ==> !filter.admits(#[trigger] devices@[j]),
        decreases devices@.len() - i,
    {
        if filter.matches(&devices[i]) {
            return Ok(i);
        }
        i += 1;
    }
    Err(Error::DeviceNotFound)
}

} // verus!
