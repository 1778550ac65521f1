//! The decisions of one scrape: what becomes of the hub's replies.
//!
//! The requests themselves are made elsewhere. What is decided here is which
//! device identifiers are asked for, when the collection of device details
//! is given up, when the inventory is done without, and what text answers
//! the scrape.

use vstd::prelude::*;
use crate::hub::{Device, DeviceDetail, DeviceIDs, DeviceInventory, devices_view, placeholder};
use crate::inventory::{InventoryIndex, index_of, records_view};
use crate::metrics::{build_metrics, exposition, inventory_view};
use crate::text::{decimal_u32, parse_u32, trim, trimmed};

verus! {

/// Why a request to the hub gave nothing.
#[derive(Debug, Clone, Copy, PartialEq, Eq, Structural)]
pub enum FetchError {
    /// The request could not be sent, or the hub answered with a status
    /// other than success.
    RequestFailed,
    /// The answer was not the JSON that was expected.
    JsonParsingFailed,
}

/// The device number that an identifier of the device list stands for: the
/// identifier without the white space around it, read as a decimal number.
pub open spec fn device_id_of(id: Seq<char>) -> Option<u32> {
    decimal_u32(trimmed(id))
}

/// The device numbers of a list of identifiers, in the order of the list.
/// An identifier that is no number is left out.
pub open spec fn device_numbers(ids: Seq<Seq<char>>) -> Seq<u32>
    decreases ids.len(),
{
    if ids.len() == 0 {
        Seq::empty()
    } else {
        match device_id_of(ids.last()) {
            Some(number) => device_numbers(ids.drop_last()).push(number),
            None => device_numbers(ids.drop_last()),
        }
    }
}

/// The identifiers of a device list.
pub open spec fn id_texts(list: Seq<DeviceIDs>) -> Seq<Seq<char>> {
    Seq::new(list.len(), |i: int| list[i].id@)
}

/// The number that `id` is the decimal notation of, `None` where it is
/// none. White space counts: an identifier is trimmed before it gets here.
pub fn parse_device_id(id: &str) -> (number: Option<u32>)
    ensures
        number == decimal_u32(id@),
{
    match parse_u32(id) {
        Ok(number) => Some(number),
        Err(_) => None,
    }
}

/// The device numbers of the hub's device list, in the order of the list.
/// An entry whose identifier is no number is dropped.
pub fn device_ids(list: &Vec<DeviceIDs>) -> (numbers: Vec<u32>)
    ensures
        numbers@ == device_numbers(id_texts(list@)),
{
    let ghost all = id_texts(list@);
    let mut numbers: Vec<u32> = Vec::new();
    assert(numbers@ =~= device_numbers(all.take(0)));
    let mut i: usize = 0;
    while i < list.len()
        invariant
            i <= list.len(),
            all == id_texts(list@),
            numbers@ == device_numbers(all.take(i as int)),
        decreases list.len() - i,
    {
        proof {
            assert(all.take(i as int + 1).drop_last() =~= all.take(i as int));
            assert(all.take(i as int + 1).last() == list[i as int].id@);
        }
        match parse_device_id(trim(list[i].id.as_str())) {
            Some(number) => {
                numbers.push(number);
            },
            None => {},
        }
        i += 1;
    }
    assert(all.take(all.len() as int) =~= all);
    numbers
}

/// How the fetch of the inventory ended.
pub enum InventoryFetch {
    /// There is no session with the hub, so nothing was asked.
    NoSession,
    /// The request failed, or its answer could not be read.
    Failed(FetchError),
    /// The hub answered with its login page: the session is no longer valid.
    LoginRedirect,
    /// The hub sent its records.
    Records(Vec<DeviceInventory>),
}

/// What a scrape has of the inventory, and whether to log in again.
pub struct InventoryOutcome {
    /// The index of the records, `None` where the scrape does without.
    pub index: Option<InventoryIndex>,
    /// Whether the session is to be set up again before the next scrape.
    pub login_again: bool,
}

/// What becomes of the inventory fetch: records are indexed; anything else
/// leaves the scrape without an inventory, which is no failure of the
/// scrape. Only the hub's login page asks for a new login.
pub fn inventory_outcome(fetch: InventoryFetch) -> (outcome: InventoryOutcome)
    ensures
        inventory_view(outcome.index) == match fetch {
            InventoryFetch::Records(records) => Some(index_of(records_view(records@))),
            _ => None,
        },
        outcome.login_again <==> fetch is LoginRedirect,
{
    match fetch {
        InventoryFetch::Records(records) => InventoryOutcome {
            index: Some(InventoryIndex::build(records)),
            login_again: false,
        },
        InventoryFetch::LoginRedirect => InventoryOutcome { index: None, login_again: true },
        InventoryFetch::Failed(_) => InventoryOutcome { index: None, login_again: false },
        InventoryFetch::NoSession => InventoryOutcome { index: None, login_again: false },
    }
}

/// What becomes of the device list: the device numbers of its entries, or
/// the failure of the fetch.
pub fn device_ids_outcome(fetch: Result<Vec<DeviceIDs>, FetchError>) -> (outcome: Result<
    Vec<u32>,
    FetchError,
>)
    ensures
        match fetch {
            Ok(list) => outcome matches Ok(numbers) && numbers@ == device_numbers(
                id_texts(list@),
            ),
            Err(error) => outcome == Err::<Vec<u32>, FetchError>(error),
        },
{
    match fetch {
        Ok(list) => Ok(device_ids(&list)),
        Err(error) => Err(error),
    }
}

/// The collection of device details, one device after another.
///
/// It starts with the placeholder device alone. Each fetched device is added
/// behind those before it. The first failure ends the collection: no further
/// device is asked for, and the failure is what the collection comes to.
pub struct DetailFetch {
    ids: Vec<u32>,
    next: usize,
    devices: Vec<Device>,
    failure: Option<FetchError>,
}

impl DetailFetch {
    /// The device numbers still to be asked for, in order.
    pub closed spec fn remaining(&self) -> Seq<u32> {
        if self.next <= self.ids@.len() {
            self.ids@.skip(self.next as int)
        } else {
            Seq::empty()
        }
    }

    /// The devices collected so far, the placeholder first.
    pub closed spec fn collected(&self) -> Seq<DeviceDetail> {
        devices_view(self.devices@)
    }

    /// The failure that ended the collection, if one did.
    pub closed spec fn failure(&self) -> Option<FetchError> {
        self.failure
    }

    /// The collection at its start: the placeholder alone, and every device
    /// number still to be asked for. Where the device list itself could not
    /// be fetched there is nothing to ask for.
    pub fn start(ids: Result<Vec<u32>, FetchError>) -> (fetch: DetailFetch)
        ensures
            fetch.collected() == seq![placeholder()],
            fetch.failure() is None,
            fetch.remaining() == match ids {
                Ok(numbers) => numbers@,
                Err(_) => Seq::<u32>::empty(),
            },
    {
        let ids = match ids {
            Ok(numbers) => numbers,
            Err(_) => Vec::new(),
        };
        let mut devices: Vec<Device> = Vec::new();
        devices.push(Device::default());
        let fetch = DetailFetch { ids, next: 0, devices, failure: None };
        assert(fetch.collected() =~= seq![placeholder()]);
        assert(fetch.ids@.skip(0) =~= fetch.ids@);
        fetch
    }

    /// The device number to ask for next, `None` when the collection is
    /// over.
    pub fn next_id(&self) -> (id: Option<u32>)
        ensures
            id == if self.remaining().len() > 0 {
                Some(self.remaining()[0])
            } else {
                None
            },
    {
        if self.next < self.ids.len() {
            Some(self.ids[self.next])
        } else {
            None
        }
    }

    /// Takes the hub's reply for the device number that `next_id` gave. A
    /// device is added to the collection; a failure ends the collection. A
    /// reply that comes when the collection is over changes nothing.
    pub fn record(&mut self, reply: Result<Device, FetchError>)
        ensures
            old(self).remaining().len() == 0 ==> *final(self) == *old(self),
            old(self).remaining().len() > 0 ==> match reply {
                Ok(device) => {
                    &&& final(self).collected() == old(self).collected().push(device@)
                    &&& final(self).remaining() == old(self).remaining().drop_first()
                    &&& final(self).failure() == old(self).failure()
                },
                Err(error) => {
                    &&& final(self).collected() == old(self).collected()
                    &&& final(self).remaining() == Seq::<u32>::empty()
                    &&& final(self).failure() == Some(error)
                },
            },
    {
        if self.next < self.ids.len() {
            match reply {
                Ok(device) => {
                    let ghost before = devices_view(self.devices@);
                    self.devices.push(device);
                    self.next = self.next + 1;
                    assert(devices_view(self.devices@) =~= before.push(device@));
                    assert(self.ids@.skip(self.next as int) =~= old(self).ids@.skip(
                        old(self).next as int,
                    ).drop_first());
                },
                Err(error) => {
                    self.failure = Some(error);
                    self.next = self.ids.len();
                    assert(self.ids@.skip(self.next as int) =~= Seq::<u32>::empty());
                },
            }
        }
    }

    /// What the collection comes to: the failure that ended it, or the
    /// devices collected, the placeholder first.
    pub fn finish(self) -> (devices: Result<Vec<Device>, FetchError>)
        ensures
            match self.failure() {
                Some(error) => devices == Err::<Vec<Device>, FetchError>(error),
                None => devices matches Ok(list) && devices_view(list@) == self.collected(),
            },
    {
        match self.failure {
            Some(error) => Err(error),
            None => Ok(self.devices),
        }
    }
}

/// The text that answers a scrape: the exposition text of the devices, and
/// nothing where their details could not be collected. The scrape itself
/// never fails.
pub fn metrics_body(devices: &Result<Vec<Device>, FetchError>, inventory: &Option<InventoryIndex>) -> (text:
    String)
    ensures
        text@ == match *devices {
            Ok(list) => exposition(devices_view(list@), inventory_view(*inventory)),
            Err(_) => Seq::<char>::empty(),
        },
{
    match devices {
        Ok(list) => build_metrics(list, inventory),
        Err(_) => String::new(),
    }
}

} // verus!
