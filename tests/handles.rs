use bagua_net::backend::BaguaNetBackend;
use bagua_net::device::{EntryAddress, InterfaceAddress, IpAddress, SocketAddress};
use bagua_net::error::BaguaNetError;
use bagua_net::table::{CommKind, CommTable, Communicator};
use bagua_net::transfer::{Direction, RequestStatus};

type Backend = BaguaNetBackend<&'static str, &'static str, &'static str>;

fn backend() -> Backend {
    Backend::new(&vec![InterfaceAddress {
        interface_name: "eth0".to_string(),
        address: EntryAddress::Ip(SocketAddress { ip: IpAddress::V4(0x0a000002), port: 0 }),
        is_loopback: false,
    }])
}

#[test]
fn identifiers_are_handed_out_in_order() {
    let mut b = backend();
    assert_eq!(b.listen(0, "l0"), Ok(0));
    assert_eq!(b.connect(0, "s0"), Ok(1));
    assert_eq!(b.accept(0, "r0"), Ok(2));
    assert_eq!(*b.listen_comm(0).unwrap(), "l0");
    assert_eq!(*b.send_comm(1).unwrap(), "s0");
    assert_eq!(*b.recv_comm(2).unwrap(), "r0");
}

#[test]
fn listen_and_connect_check_the_device() {
    let mut b = backend();
    assert_eq!(b.listen(-1, "l"), Err(BaguaNetError::InvalidArgument));
    assert_eq!(b.listen(1, "l"), Err(BaguaNetError::InvalidArgument));
    assert_eq!(b.connect(1, "s"), Err(BaguaNetError::InvalidArgument));
    assert_eq!(b.listen(0, "l"), Ok(0));
}

#[test]
fn close_listen_then_accept_fails_and_second_close_fails() {
    let mut b = backend();
    let id = b.listen(0, "l").unwrap();
    assert_eq!(b.close_listen(id), Ok(()));
    assert_eq!(b.accept(id, "r"), Err(BaguaNetError::NotFound));
    assert_eq!(b.listen_comm(id), Err(BaguaNetError::NotFound));
    assert_eq!(b.close_listen(id), Err(BaguaNetError::NotFound));
}

#[test]
fn closed_identifier_is_never_reused() {
    let mut b = backend();
    let id = b.listen(0, "l").unwrap();
    b.close_listen(id).unwrap();
    let next = b.listen(0, "l2").unwrap();
    assert_ne!(next, id);
    assert_eq!(b.listen_comm(id), Err(BaguaNetError::NotFound));
    assert_eq!(*b.listen_comm(next).unwrap(), "l2");
}

#[test]
fn transfer_on_closed_communicator_fails_not_found() {
    let mut b = backend();
    let l = b.listen(0, "l").unwrap();
    let s = b.connect(0, "s").unwrap();
    let r = b.accept(l, "r").unwrap();
    assert!(b.isend(s, 4).is_ok());
    assert!(b.irecv(r, 4).is_ok());
    b.close_send(s).unwrap();
    b.close_recv(r).unwrap();
    assert!(matches!(b.isend(s, 4), Err(BaguaNetError::NotFound)));
    assert!(matches!(b.irecv(r, 4), Err(BaguaNetError::NotFound)));
    assert_eq!(b.close_send(s), Err(BaguaNetError::NotFound));
    assert_eq!(b.close_recv(r), Err(BaguaNetError::NotFound));
}

#[test]
fn wrong_kind_does_not_resolve() {
    let mut b = backend();
    let l = b.listen(0, "l").unwrap();
    let s = b.connect(0, "s").unwrap();
    assert_eq!(b.send_comm(l), Err(BaguaNetError::NotFound));
    assert_eq!(b.recv_comm(s), Err(BaguaNetError::NotFound));
    assert!(matches!(b.isend(l, 1), Err(BaguaNetError::NotFound)));
    assert_eq!(b.accept(s, "r"), Err(BaguaNetError::NotFound));
    assert_eq!(b.close_listen(s), Err(BaguaNetError::NotFound));
    assert_eq!(b.listen_comm(99), Err(BaguaNetError::NotFound));
}

#[test]
fn requests_start_fresh() {
    let mut b = backend();
    let s = b.connect(0, "s").unwrap();
    let req = b.isend(s, 10).unwrap();
    assert_eq!(req.comm_id, s);
    assert_eq!(req.direction, Direction::Send);
    assert_eq!(req.len, 10);
    assert_eq!(req.offset, 0);
    assert!(matches!(req.status, RequestStatus::InFlight));
    let empty = b.isend(s, 0).unwrap();
    assert!(matches!(empty.status, RequestStatus::Complete));
}

#[test]
fn many_listeners_each_resolve_to_their_own() {
    let mut b = backend();
    let names = ["a", "b", "c", "d", "e", "f", "g", "h"];
    let ids: Vec<usize> = names.iter().map(|n| b.listen(0, n).unwrap()).collect();
    let sends: Vec<usize> = names.iter().map(|n| b.connect(0, n).unwrap()).collect();
    for (i, n) in names.iter().enumerate() {
        assert_eq!(*b.listen_comm(ids[i]).unwrap(), *n);
        assert_eq!(*b.send_comm(sends[i]).unwrap(), *n);
    }
}

#[test]
fn table_remove_returns_the_communicator() {
    let mut t: CommTable<u8, u16, u32> = CommTable::new();
    assert_eq!(t.insert(Communicator::Send(7)), Ok(0));
    assert!(matches!(t.lookup(0, CommKind::Send), Ok(Communicator::Send(7))));
    assert!(matches!(t.remove(0, CommKind::Recv), Err(BaguaNetError::NotFound)));
    assert!(matches!(t.remove(0, CommKind::Send), Ok(Communicator::Send(7))));
    assert!(matches!(t.remove(0, CommKind::Send), Err(BaguaNetError::NotFound)));
}
