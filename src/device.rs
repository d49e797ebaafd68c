use vstd::prelude::*;

verus! {

/// An IP address held as its numeric value (network order read as a big-endian integer).
#[derive(Clone, Copy, Debug, PartialEq, Eq, Structural)]
pub enum IpAddress {
    V4(u32),
    V6(u128),
}

/// A transport address: an IP address and a port (0 leaves the port to the system).
#[derive(Clone, Copy, Debug, PartialEq, Eq, Structural)]
pub struct SocketAddress {
    pub ip: IpAddress,
    pub port: u16,
}

/// The address that one row of the host's interface address table carries.
#[derive(Clone, Copy, Debug, PartialEq, Eq, Structural)]
pub enum EntryAddress {
    /// The row has no address.
    Missing,
    /// The address belongs to a family other than IPv4 and IPv6.
    OtherFamily,
    Ip(SocketAddress),
}

/// One row of the host's interface address table, as the system reports it.
#[derive(Debug)]
pub struct InterfaceAddress {
    pub interface_name: String,
    pub address: EntryAddress,
    pub is_loopback: bool,
}

/// A network interface made available for transport.
#[derive(Debug)]
pub struct NCCLSocketDev {
    pub interface_name: String,
    pub addr: SocketAddress,
    pub pci_path: String,
}

/// The longest interface name, in UTF-8 bytes, that the host accepts, plus one.
pub const MAX_IF_NAME_SIZE: usize = 16;

/// A device as its name, its address and its sysfs device path.
pub type DeviceModel = (Seq<char>, SocketAddress, Seq<char>);

impl View for NCCLSocketDev {
    type V = DeviceModel;

    open spec fn view(&self) -> DeviceModel {
        (self.interface_name@, self.addr, self.pci_path@)
    }
}

/// The sysfs directory of the device behind interface `name`.
pub open spec fn pci_path_of(name: Seq<char>) -> Seq<char> {
    "/sys/class/net/"@ + name + "/device"@
}

/// How many bytes the UTF-8 encoding of `c` takes.
pub open spec fn utf8_width(c: char) -> nat {
    if (c as u32) < 0x80 {
        1
    } else if (c as u32) < 0x800 {
        2
    } else if (c as u32) < 0x10000 {
        3
    } else {
        4
    }
}

/// The length of the UTF-8 encoding of `s`, in bytes.
pub open spec fn utf8_len(s: Seq<char>) -> nat
    decreases s.len(),
{
    if s.len() == 0 {
        0
    } else {
        utf8_len(s.drop_last()) + utf8_width(s.last())
    }
}

/// A row is usable for transport: it has an IPv4 or IPv6 address, its interface is
/// not a loopback one, and its name fits the host's bound.
pub open spec fn usable(e: InterfaceAddress) -> bool {
    &&& e.address is Ip
    &&& !e.is_loopback
    &&& utf8_len(e.interface_name@) < MAX_IF_NAME_SIZE
}

pub open spec fn device_of(e: InterfaceAddress) -> DeviceModel {
    (e.interface_name@, e.address->Ip_0, pci_path_of(e.interface_name@))
}

pub open spec fn has_name(devs: Seq<DeviceModel>, name: Seq<char>) -> bool {
    exists|k: int| 0 <= k < devs.len() && #[trigger] devs[k].0 == name
}

/// The devices that a scan of `entries` yields: the usable rows in order, each
/// interface name kept at its first usable row only.
pub open spec fn select_devices(entries: Seq<InterfaceAddress>) -> Seq<DeviceModel>
    decreases entries.len(),
{
    if entries.len() == 0 {
        Seq::empty()
    } else {
        let prev = select_devices(entries.drop_last());
        let e = entries.last();
        if usable(e) && !has_name(prev, e.interface_name@) {
            prev.push(device_of(e))
        } else {
            prev
        }
    }
}

/// No two devices of a scan share an interface name, and each device is the one
/// built from a usable row of the table: one with an IPv4 or IPv6 address whose
/// interface is not a loopback one.
pub proof fn lemma_devices_distinct_and_usable(entries: Seq<InterfaceAddress>)
    ensures
        forall|i: int, j: int|
            0 <= i < j < select_devices(entries).len() ==> #[trigger] select_devices(entries)[i].0
                != #[trigger] select_devices(entries)[j].0,
        forall|i: int|
            0 <= i < select_devices(entries).len() ==> exists|k: int|
                0 <= k < entries.len() && usable(entries[k])
                    && device_of(entries[k]) == #[trigger] select_devices(entries)[i],
    decreases entries.len(),
{
    if entries.len() > 0 {
        let rest = entries.drop_last();
        lemma_devices_distinct_and_usable(rest);
        let prev = select_devices(rest);
        let devs = select_devices(entries);
        assert forall|i: int| 0 <= i < devs.len() implies exists|k: int|
            0 <= k < entries.len() && usable(entries[k])
                && device_of(entries[k]) == #[trigger] devs[i] by {
            if i < prev.len() {
                let k = choose|k: int|
                    0 <= k < rest.len() && usable(rest[k])
                        && device_of(rest[k]) == #[trigger] prev[i];
                assert(rest[k] == entries[k]);
            } else {
                assert(entries[entries.len() - 1] == entries.last());
            }
        }
        assert forall|i: int, j: int| 0 <= i < j < devs.len() implies #[trigger] devs[i].0
            != #[trigger] devs[j].0 by {
            if j >= prev.len() {
                assert(devs[i] == prev[i]);
                if devs[i].0 == devs[j].0 {
                    assert(has_name(prev, entries.last().interface_name@));
                }
            }
        }
    }
}

/// The sysfs device path of interface `name`.
pub fn pci_path(name: &String) -> (r: String)
    ensures
        r@ == pci_path_of(name@),
{
    let mut p = String::from_str("/sys/class/net/");
    p.append(name.as_str());
    p.append("/device");
    p
}

/// Whether `name` is shorter, in UTF-8 bytes, than the host's bound.
fn name_fits(name: &String) -> (r: bool)
    ensures
        r == (utf8_len(name@) < MAX_IF_NAME_SIZE),
{
    let s = name.as_str();
    let n = s.unicode_len();
    let mut total: usize = 0;
    let mut i: usize = 0;
    while i < n
        invariant
            i <= n,
            n == name@.len(),
            s@ == name@,
            total == (if utf8_len(name@.take(i as int)) < MAX_IF_NAME_SIZE {
                utf8_len(name@.take(i as int))
            } else {
                MAX_IF_NAME_SIZE as nat
            }),
        decreases n - i,
    {
        let c = s.get_char(i);
        let code = c as u32;
        let w: usize = if code < 0x80 {
            1
        } else if code < 0x800 {
            2
        } else if code < 0x10000 {
            3
        } else {
            4
        };
        assert(name@.take(i as int + 1).drop_last() =~= name@.take(i as int));
        assert(name@.take(i as int + 1).last() == c);
        total = if total + w < MAX_IF_NAME_SIZE { total + w } else { MAX_IF_NAME_SIZE };
        i += 1;
    }
    assert(name@.take(n as int) =~= name@);
    total < MAX_IF_NAME_SIZE
}

fn name_taken(devs: &Vec<NCCLSocketDev>, name: &String) -> (r: bool)
    ensures
        r == has_name(devs@.map_values(|d: NCCLSocketDev| d@), name@),
{
    let ghost models = devs@.map_values(|d: NCCLSocketDev| d@);
    let mut j: usize = 0;
    while j < devs.len()
        invariant
            j <= devs.len(),
            models == devs@.map_values(|d: NCCLSocketDev| d@),
            forall|k: int| 0 <= k < j ==> models[k].0 != name@,
        decreases devs.len() - j,
    {
        if devs[j].interface_name == *name {
            assert(models[j as int].0 == name@);
            return true;
        }
        j += 1;
    }
    false
}

/// Builds the device list from the host's interface address table: rows without an
/// IPv4 or IPv6 address, loopback interfaces and names over the bound are skipped,
/// and of several rows of one interface the first usable one is kept.
pub fn find_interfaces(entries: &Vec<InterfaceAddress>) -> (devs: Vec<NCCLSocketDev>)
    ensures
        devs@.map_values(|d: NCCLSocketDev| d@) == select_devices(entries@),
{
    let mut devs: Vec<NCCLSocketDev> = Vec::new();
    let mut i: usize = 0;
    while i < entries.len()
        invariant
            i <= entries.len(),
            devs@.map_values(|d: NCCLSocketDev| d@) == select_devices(entries@.take(i as int)),
        decreases entries.len() - i,
    {
        let e = &entries[i];
        assert(entries@.take(i as int + 1).drop_last() =~= entries@.take(i as int));
        let ghost prev = devs@.map_values(|d: NCCLSocketDev| d@);
        if let EntryAddress::Ip(addr) = e.address {
            if !e.is_loopback && name_fits(&e.interface_name) {
                if !name_taken(&devs, &e.interface_name) {
                    let dev = NCCLSocketDev {
                        interface_name: e.interface_name.clone(),
                        addr,
                        pci_path: pci_path(&e.interface_name),
                    };
                    devs.push(dev);
                    assert(devs@.map_values(|d: NCCLSocketDev| d@) =~= prev.push(device_of(*e)));
                }
            }
        }
        i += 1;
    }
    assert(entries@.take(entries.len() as int) =~= entries@);
    devs
}

} // verus!
