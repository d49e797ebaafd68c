use vstd::prelude::*;
use crate::device::{find_interfaces, select_devices, DeviceModel, InterfaceAddress, NCCLSocketDev, SocketAddress};
use crate::error::BaguaNetError;
use crate::speed::{get_net_if_speed, speed_of, speed_path};
use crate::table::{resolves, CommKind, CommTable, Communicator};
use crate::transfer::{fresh, Direction, TransferRequest};

verus! {

/// Capability flag: the transport moves bytes from host memory.
pub const NCCL_PTR_HOST: i32 = 1;

/// How many communicators one device serves at most.
pub const DEFAULT_SOCKET_MAX_COMMS: i32 = 65536;

/// What the backend tells of one device.
#[derive(Debug)]
pub struct NCCLNetProperties {
    pub name: String,
    pub pci_path: String,
    pub guid: u64,
    /// A bitmask of the memory kinds that transfers may use.
    pub ptr_support: i32,
    /// Link speed in Mbps.
    pub speed: i32,
    /// 0: unspecified.
    pub port: i32,
    pub max_comms: i32,
}

/// The address that a listening peer hands out for others to connect to.
#[derive(Clone, Copy, Debug)]
pub struct SocketHandle {
    pub addr: SocketAddress,
}

/// The identifier of a listening communicator, as it is handed across the boundary.
#[derive(Clone, Copy, Debug)]
pub struct SocketListenCommC {
    pub id: usize,
}

/// The backend: the device list, fixed when it is built, and the table of live
/// communicators. `L`, `S` and `R` are what holds a listening socket, an outbound
/// stream and an accepted stream.
pub struct BaguaNetBackend<L, S, R> {
    pub socket_devs: Vec<NCCLSocketDev>,
    pub comms: CommTable<L, S, R>,
}

pub open spec fn is_valid_device(devs: Seq<DeviceModel>, dev_id: i32) -> bool {
    0 <= dev_id < devs.len()
}

impl<L, S, R> BaguaNetBackend<L, S, R> {
    pub open spec fn devs(&self) -> Seq<DeviceModel> {
        self.socket_devs@.map_values(|d: NCCLSocketDev| d@)
    }

    /// The communicator slots, indexed by identifier.
    pub open spec fn slots(&self) -> Seq<Option<Communicator<L, S, R>>> {
        self.comms@
    }

    /// Builds the backend on the host's interface address table, read once.
    pub fn new(entries: &Vec<InterfaceAddress>) -> (b: Self)
        ensures
            b.devs() == select_devices(entries@),
            b.slots() == Seq::<Option<Communicator<L, S, R>>>::empty(),
    {
        BaguaNetBackend { socket_devs: find_interfaces(entries), comms: CommTable::new() }
    }

    /// The number of devices.
    pub fn devices(&self) -> (n: usize)
        ensures
            n == self.devs().len(),
    {
        self.socket_devs.len()
    }

    /// The device of index `dev_id`.
    pub fn device(&self, dev_id: i32) -> (r: Result<&NCCLSocketDev, BaguaNetError>)
        ensures
            is_valid_device(self.devs(), dev_id) ==> (r matches Ok(d) && d@ == self.devs()[dev_id as int]),
            !is_valid_device(self.devs(), dev_id) ==> (r matches Err(BaguaNetError::InvalidArgument)),
    {
        if dev_id < 0 || dev_id as usize >= self.socket_devs.len() {
            return Err(BaguaNetError::InvalidArgument);
        }
        Ok(&self.socket_devs[dev_id as usize])
    }

    /// The path of the sysfs attribute that holds the link speed of device `dev_id`.
    pub fn speed_path(&self, dev_id: i32) -> (r: Result<String, BaguaNetError>)
        ensures
            is_valid_device(self.devs(), dev_id) ==> (r matches Ok(p) && p@ == "/sys/class/net/"@
                + self.devs()[dev_id as int].0 + "/speed"@),
            !is_valid_device(self.devs(), dev_id) ==> (r matches Err(BaguaNetError::InvalidArgument)),
    {
        let dev = self.device(dev_id)?;
        Ok(speed_path(&dev.interface_name))
    }

    /// The properties of device `dev_id`, with the link speed that `speed_text`, the
    /// content of its speed attribute if it could be read, gives.
    pub fn get_device_properties(&self, dev_id: i32, speed_text: Option<&str>) -> (r: Result<
        NCCLNetProperties,
        BaguaNetError,
    >)
        ensures
            is_valid_device(self.devs(), dev_id) ==> (r matches Ok(p) && p.name@ == self.devs()[dev_id as int].0
                && p.pci_path@ == self.devs()[dev_id as int].2 && p.guid == dev_id as u64
                && p.ptr_support == NCCL_PTR_HOST && p.speed as int == speed_of(
                match speed_text {
                    Some(t) => Some(t@),
                    None => None,
                },
            ) && p.port == 0 && p.max_comms == DEFAULT_SOCKET_MAX_COMMS),
            !is_valid_device(self.devs(), dev_id) ==> (r matches Err(BaguaNetError::InvalidArgument)),
    {
        let dev = self.device(dev_id)?;
        Ok(
            NCCLNetProperties {
                name: dev.interface_name.clone(),
                pci_path: dev.pci_path.clone(),
                guid: dev_id as u64,
                ptr_support: NCCL_PTR_HOST,
                speed: get_net_if_speed(speed_text),
                port: 0,
                max_comms: DEFAULT_SOCKET_MAX_COMMS,
            },
        )
    }

    /// Registers a listening socket bound on device `dev_id` and returns its identifier.
    pub fn listen(&mut self, dev_id: i32, listener: L) -> (r: Result<usize, BaguaNetError>)
        ensures
            final(self).devs() == old(self).devs(),
            !is_valid_device(old(self).devs(), dev_id) ==> (r matches Err(BaguaNetError::InvalidArgument))
                && final(self).slots() == old(self).slots(),
            is_valid_device(old(self).devs(), dev_id) && old(self).slots().len() < usize::MAX ==> r
                == Ok::<usize, BaguaNetError>(old(self).slots().len() as usize) && final(self).slots()
                == old(self).slots().push(Some(Communicator::Listen(listener))),
            is_valid_device(old(self).devs(), dev_id) && old(self).slots().len() == usize::MAX ==> (r matches Err(
                BaguaNetError::IOError(_),
            )) && final(self).slots() == old(self).slots(),
    {
        if dev_id < 0 || dev_id as usize >= self.socket_devs.len() {
            return Err(BaguaNetError::InvalidArgument);
        }
        self.comms.insert(Communicator::Listen(listener))
    }

    /// Registers an outbound stream opened for device `dev_id` and returns its identifier.
    /// The device index is checked, but the stream is not bound to the device's
    /// address: outbound connections follow the host's default route.
    pub fn connect(&mut self, dev_id: i32, stream: S) -> (r: Result<usize, BaguaNetError>)
        ensures
            final(self).devs() == old(self).devs(),
            !is_valid_device(old(self).devs(), dev_id) ==> (r matches Err(BaguaNetError::InvalidArgument))
                && final(self).slots() == old(self).slots(),
            is_valid_device(old(self).devs(), dev_id) && old(self).slots().len() < usize::MAX ==> r
                == Ok::<usize, BaguaNetError>(old(self).slots().len() as usize) && final(self).slots()
                == old(self).slots().push(Some(Communicator::Send(stream))),
            is_valid_device(old(self).devs(), dev_id) && old(self).slots().len() == usize::MAX ==> (r matches Err(
                BaguaNetError::IOError(_),
            )) && final(self).slots() == old(self).slots(),
    {
        if dev_id < 0 || dev_id as usize >= self.socket_devs.len() {
            return Err(BaguaNetError::InvalidArgument);
        }
        self.comms.insert(Communicator::Send(stream))
    }

    /// Registers a stream accepted on listening communicator `listen_id` and returns its
    /// identifier. Fails when `listen_id` was closed meanwhile; the stream is then dropped.
    pub fn accept(&mut self, listen_id: usize, stream: R) -> (r: Result<usize, BaguaNetError>)
        ensures
            final(self).devs() == old(self).devs(),
            !resolves(old(self).slots(), listen_id as int, CommKind::Listen) ==> (r matches Err(
                BaguaNetError::NotFound,
            )) && final(self).slots() == old(self).slots(),
            resolves(old(self).slots(), listen_id as int, CommKind::Listen) && old(self).slots().len()
                < usize::MAX ==> r == Ok::<usize, BaguaNetError>(old(self).slots().len() as usize)
                && final(self).slots() == old(self).slots().push(Some(Communicator::Recv(stream))),
            resolves(old(self).slots(), listen_id as int, CommKind::Listen) && old(self).slots().len()
                == usize::MAX ==> (r matches Err(BaguaNetError::IOError(_))) && final(self).slots()
                == old(self).slots(),
    {
        self.comms.lookup(listen_id, CommKind::Listen)?;
        self.comms.insert(Communicator::Recv(stream))
    }

    /// The listening socket that `listen_id` names.
    pub fn listen_comm(&self, listen_id: usize) -> (r: Result<&L, BaguaNetError>)
        ensures
            resolves(self.slots(), listen_id as int, CommKind::Listen) ==> (r matches Ok(l)
                && self.slots()[listen_id as int] == Some(Communicator::<L, S, R>::Listen(*l))),
            !resolves(self.slots(), listen_id as int, CommKind::Listen) ==> (r matches Err(
                BaguaNetError::NotFound,
            )),
    {
        match self.comms.lookup(listen_id, CommKind::Listen)? {
            Communicator::Listen(l) => Ok(l),
            _ => Err(BaguaNetError::NotFound),
        }
    }

    /// The outbound stream that `send_id` names.
    pub fn send_comm(&self, send_id: usize) -> (r: Result<&S, BaguaNetError>)
        ensures
            resolves(self.slots(), send_id as int, CommKind::Send) ==> (r matches Ok(s)
                && self.slots()[send_id as int] == Some(Communicator::<L, S, R>::Send(*s))),
            !resolves(self.slots(), send_id as int, CommKind::Send) ==> (r matches Err(
                BaguaNetError::NotFound,
            )),
    {
        match self.comms.lookup(send_id, CommKind::Send)? {
            Communicator::Send(s) => Ok(s),
            _ => Err(BaguaNetError::NotFound),
        }
    }

    /// The accepted stream that `recv_id` names.
    pub fn recv_comm(&self, recv_id: usize) -> (r: Result<&R, BaguaNetError>)
        ensures
            resolves(self.slots(), recv_id as int, CommKind::Recv) ==> (r matches Ok(c)
                && self.slots()[recv_id as int] == Some(Communicator::<L, S, R>::Recv(*c))),
            !resolves(self.slots(), recv_id as int, CommKind::Recv) ==> (r matches Err(
                BaguaNetError::NotFound,
            )),
    {
        match self.comms.lookup(recv_id, CommKind::Recv)? {
            Communicator::Recv(c) => Ok(c),
            _ => Err(BaguaNetError::NotFound),
        }
    }

    /// Closes the communicator of kind `kind` that `id` names; the identifier never
    /// resolves again.
    fn close(&mut self, id: usize, kind: CommKind) -> (r: Result<(), BaguaNetError>)
        ensures
            final(self).devs() == old(self).devs(),
            resolves(old(self).slots(), id as int, kind) ==> r is Ok && final(self).slots()
                == old(self).slots().update(id as int, None),
            !resolves(old(self).slots(), id as int, kind) ==> (r matches Err(BaguaNetError::NotFound))
                && final(self).slots() == old(self).slots(),
    {
        match self.comms.remove(id, kind) {
            Ok(_) => Ok(()),
            Err(e) => Err(e),
        }
    }

    /// Closes the listening communicator that `listen_id` names.
    pub fn close_listen(&mut self, listen_id: usize) -> (r: Result<(), BaguaNetError>)
        ensures
            final(self).devs() == old(self).devs(),
            resolves(old(self).slots(), listen_id as int, CommKind::Listen) ==> r is Ok && final(self).slots()
                == old(self).slots().update(listen_id as int, None),
            !resolves(old(self).slots(), listen_id as int, CommKind::Listen) ==> (r matches Err(
                BaguaNetError::NotFound,
            )) && final(self).slots() == old(self).slots(),
    {
        self.close(listen_id, CommKind::Listen)
    }

    /// Closes the outbound communicator that `send_id` names.
    pub fn close_send(&mut self, send_id: usize) -> (r: Result<(), BaguaNetError>)
        ensures
            final(self).devs() == old(self).devs(),
            resolves(old(self).slots(), send_id as int, CommKind::Send) ==> r is Ok && final(self).slots()
                == old(self).slots().update(send_id as int, None),
            !resolves(old(self).slots(), send_id as int, CommKind::Send) ==> (r matches Err(
                BaguaNetError::NotFound,
            )) && final(self).slots() == old(self).slots(),
    {
        self.close(send_id, CommKind::Send)
    }

    /// Closes the accepted communicator that `recv_id` names.
    pub fn close_recv(&mut self, recv_id: usize) -> (r: Result<(), BaguaNetError>)
        ensures
            final(self).devs() == old(self).devs(),
            resolves(old(self).slots(), recv_id as int, CommKind::Recv) ==> r is Ok && final(self).slots()
                == old(self).slots().update(recv_id as int, None),
            !resolves(old(self).slots(), recv_id as int, CommKind::Recv) ==> (r matches Err(
                BaguaNetError::NotFound,
            )) && final(self).slots() == old(self).slots(),
    {
        self.close(recv_id, CommKind::Recv)
    }

    /// Starts sending `len` bytes over the outbound communicator `send_id`.
    pub fn isend(&self, send_id: usize, len: usize) -> (r: Result<TransferRequest, BaguaNetError>)
        ensures
            resolves(self.slots(), send_id as int, CommKind::Send) ==> (r matches Ok(req) && req@ == fresh(
                send_id,
                Direction::Send,
                len as nat,
            )),
            !resolves(self.slots(), send_id as int, CommKind::Send) ==> (r matches Err(
                BaguaNetError::NotFound,
            )),
    {
        self.comms.lookup(send_id, CommKind::Send)?;
        Ok(TransferRequest::new(send_id, Direction::Send, len))
    }

    /// Starts receiving `len` bytes over the accepted communicator `recv_id`.
    pub fn irecv(&self, recv_id: usize, len: usize) -> (r: Result<TransferRequest, BaguaNetError>)
        ensures
            resolves(self.slots(), recv_id as int, CommKind::Recv) ==> (r matches Ok(req) && req@ == fresh(
                recv_id,
                Direction::Recv,
                len as nat,
            )),
            !resolves(self.slots(), recv_id as int, CommKind::Recv) ==> (r matches Err(
                BaguaNetError::NotFound,
            )),
    {
        self.comms.lookup(recv_id, CommKind::Recv)?;
        Ok(TransferRequest::new(recv_id, Direction::Recv, len))
    }
}

} // verus!
