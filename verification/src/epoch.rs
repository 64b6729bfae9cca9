//! One live epoch of the bridge: two forwarding directions over one bus.
//!
//! While both transports are open, four tasks run: each side's reader
//! forwards packets it received onto the bus toward the other side, and
//! each side's writer drains the bus bound for its own transport. The bus
//! is first-in first-out per direction, the two directions are independent,
//! and the epoch follows first-to-fail-wins: the moment any task fails the
//! epoch is torn down, and nothing but the bus survives into the next one.

use vstd::prelude::*;
use crate::codec::{PacketModel, ProxyPacket};

verus! {

/// Which transport a task belongs to.
#[derive(Clone, Copy, Debug, PartialEq, Eq, Structural)]
pub enum Side {
    Serial,
    Socket,
}

/// The transport across the bridge from the given one.
pub open spec fn other(side: Side) -> Side {
    match side {
        Side::Serial => Side::Socket,
        Side::Socket => Side::Serial,
    }
}

/// The mathematical state of an epoch: each direction's queued packets, and
/// whether each of the four tasks is still alive.
#[verifier::ext_equal]
pub struct EpochModel {
    pub serial_to_socket: Seq<PacketModel>,
    pub socket_to_serial: Seq<PacketModel>,
    pub serial_reader_alive: bool,
    pub serial_writer_alive: bool,
    pub socket_reader_alive: bool,
    pub socket_writer_alive: bool,
}

/// The packets queued toward the given side, in arrival order: its writer
/// drains this bus, the other side's reader fills it.
pub open spec fn bus_toward(m: EpochModel, side: Side) -> Seq<PacketModel> {
    match side {
        Side::Serial => m.socket_to_serial,
        Side::Socket => m.serial_to_socket,
    }
}

/// Whether the reader task of the given side is still alive.
pub open spec fn reader_alive(m: EpochModel, side: Side) -> bool {
    match side {
        Side::Serial => m.serial_reader_alive,
        Side::Socket => m.socket_reader_alive,
    }
}

/// Whether the writer task of the given side is still alive.
pub open spec fn writer_alive(m: EpochModel, side: Side) -> bool {
    match side {
        Side::Serial => m.serial_writer_alive,
        Side::Socket => m.socket_writer_alive,
    }
}

/// Whether all four tasks are alive. The moment this fails, the epoch is
/// over: first to fail wins, and the whole epoch is torn down.
pub open spec fn healthy(m: EpochModel) -> bool {
    &&& m.serial_reader_alive
    &&& m.serial_writer_alive
    &&& m.socket_reader_alive
    &&& m.socket_writer_alive
}

/// A fresh epoch carrying over the bus of the one before it; the first
/// epoch starts from two empty buses.
pub open spec fn fresh_model(serial_to_socket: Seq<PacketModel>, socket_to_serial: Seq<
    PacketModel,
>) -> EpochModel {
    EpochModel {
        serial_to_socket,
        socket_to_serial,
        serial_reader_alive: true,
        serial_writer_alive: true,
        socket_reader_alive: true,
        socket_writer_alive: true,
    }
}

/// The reader of `side` forwards one received packet onto the bus toward
/// the other side.
pub open spec fn spec_forward(m: EpochModel, side: Side, p: PacketModel) -> EpochModel {
    match side {
        Side::Serial => EpochModel { serial_to_socket: m.serial_to_socket.push(p), ..m },
        Side::Socket => EpochModel { socket_to_serial: m.socket_to_serial.push(p), ..m },
    }
}

/// The writer of `side` takes the packet that has waited longest on the bus
/// bound for its transport, if any.
pub open spec fn spec_take(m: EpochModel, side: Side) -> (EpochModel, Option<PacketModel>) {
    if bus_toward(m, side).len() == 0 {
        (m, None)
    } else {
        let popped = match side {
            Side::Serial => EpochModel {
                socket_to_serial: m.socket_to_serial.drop_first(),
                ..m
            },
            Side::Socket => EpochModel {
                serial_to_socket: m.serial_to_socket.drop_first(),
                ..m
            },
        };
        (popped, Some(bus_toward(m, side)[0]))
    }
}

/// The writer task of `side` has failed.
pub open spec fn spec_fail_writer(m: EpochModel, side: Side) -> EpochModel {
    match side {
        Side::Serial => EpochModel { serial_writer_alive: false, ..m },
        Side::Socket => EpochModel { socket_writer_alive: false, ..m },
    }
}

/// The reader task of `side` has failed.
pub open spec fn spec_fail_reader(m: EpochModel, side: Side) -> EpochModel {
    match side {
        Side::Serial => EpochModel { serial_reader_alive: false, ..m },
        Side::Socket => EpochModel { socket_reader_alive: false, ..m },
    }
}

/// The views of a queue of packets, in order.
pub open spec fn packet_views(s: Seq<ProxyPacket>) -> Seq<PacketModel> {
    s.map_values(|p: ProxyPacket| p@)
}

/// One live epoch: the two directions' queues and the four tasks' health.
pub struct Epoch {
    serial_to_socket: Vec<ProxyPacket>,
    socket_to_serial: Vec<ProxyPacket>,
    serial_reader_alive: bool,
    serial_writer_alive: bool,
    socket_reader_alive: bool,
    socket_writer_alive: bool,
}

impl View for Epoch {
    type V = EpochModel;

    closed spec fn view(&self) -> EpochModel {
        EpochModel {
            serial_to_socket: packet_views(self.serial_to_socket@),
            socket_to_serial: packet_views(self.socket_to_serial@),
            serial_reader_alive: self.serial_reader_alive,
            serial_writer_alive: self.serial_writer_alive,
            socket_reader_alive: self.socket_reader_alive,
            socket_writer_alive: self.socket_writer_alive,
        }
    }
}

impl Epoch {
    /// Starts a fresh epoch over empty buses: all four tasks alive.
    pub fn start() -> (r: Epoch)
        ensures
            r@ == fresh_model(Seq::<PacketModel>::empty(), Seq::<PacketModel>::empty()),
    {
        let r = Epoch {
            serial_to_socket: Vec::new(),
            socket_to_serial: Vec::new(),
            serial_reader_alive: true,
            serial_writer_alive: true,
            socket_reader_alive: true,
            socket_writer_alive: true,
        };
        assert(r@ =~= fresh_model(Seq::<PacketModel>::empty(), Seq::<PacketModel>::empty()));
        r
    }

    /// The reader of `side` forwards one received packet onto the bus
    /// toward the other side. A dead reader forwards nothing and leaves the
    /// epoch as it is.
    pub fn forward(&mut self, side: Side, p: ProxyPacket) -> (ok: bool)
        ensures
            ok == reader_alive(old(self)@, side),
            ok ==> final(self)@ == spec_forward(old(self)@, side, p@),
            !ok ==> final(self)@ == old(self)@,
    {
        match side {
            Side::Serial => {
                if !self.serial_reader_alive {
                    return false;
                }
                let ghost prev = self.serial_to_socket@;
                self.serial_to_socket.push(p);
                assert(packet_views(self.serial_to_socket@) =~= packet_views(prev).push(p@));
                true
            },
            Side::Socket => {
                if !self.socket_reader_alive {
                    return false;
                }
                let ghost prev = self.socket_to_serial@;
                self.socket_to_serial.push(p);
                assert(packet_views(self.socket_to_serial@) =~= packet_views(prev).push(p@));
                true
            },
        }
    }

    /// The writer of `side` takes the packet that has waited longest on the
    /// bus bound for its transport. A dead writer drains nothing, so the
    /// queued packets survive for the epoch that follows.
    pub fn take(&mut self, side: Side) -> (r: Option<ProxyPacket>)
        ensures
            ({
                let m = old(self)@;
                if writer_alive(m, side) && bus_toward(m, side).len() > 0 {
                    &&& r matches Some(p) && p@ == bus_toward(m, side)[0]
                    &&& final(self)@ == spec_take(m, side).0
                } else {
                    r is None && final(self)@ == m
                }
            }),
    {
        match side {
            Side::Serial => {
                if !self.serial_writer_alive || self.socket_to_serial.len() == 0 {
                    return None;
                }
                let ghost prev = self.socket_to_serial@;
                let p = self.socket_to_serial.remove(0);
                assert(packet_views(self.socket_to_serial@) =~= packet_views(prev).drop_first());
                Some(p)
            },
            Side::Socket => {
                if !self.socket_writer_alive || self.serial_to_socket.len() == 0 {
                    return None;
                }
                let ghost prev = self.serial_to_socket@;
                let p = self.serial_to_socket.remove(0);
                assert(packet_views(self.serial_to_socket@) =~= packet_views(prev).drop_first());
                Some(p)
            },
        }
    }

    /// Marks the writer task of `side` failed, as a write failure on its
    /// transport does.
    pub fn fail_writer(&mut self, side: Side)
        ensures
            final(self)@ == spec_fail_writer(old(self)@, side),
    {
        match side {
            Side::Serial => {
                self.serial_writer_alive = false;
            },
            Side::Socket => {
                self.socket_writer_alive = false;
            },
        }
    }

    /// Marks the reader task of `side` failed, as a read failure on its
    /// transport does.
    pub fn fail_reader(&mut self, side: Side)
        ensures
            final(self)@ == spec_fail_reader(old(self)@, side),
    {
        match side {
            Side::Serial => {
                self.serial_reader_alive = false;
            },
            Side::Socket => {
                self.socket_reader_alive = false;
            },
        }
    }

    /// How many packets wait on the bus bound for the given side. Packets a
    /// dead writer left behind stay counted: the bus outlives the epoch.
    pub fn queued(&self, side: Side) -> (r: usize)
        ensures
            r == bus_toward(self@, side).len(),
    {
        match side {
            Side::Serial => self.socket_to_serial.len(),
            Side::Socket => self.serial_to_socket.len(),
        }
    }

    /// Whether the epoch must be torn down: true as soon as any of the four
    /// tasks has failed — first to fail wins.
    pub fn torn_down(&self) -> (r: bool)
        ensures
            r == !healthy(self@),
    {
        !(self.serial_reader_alive && self.serial_writer_alive && self.socket_reader_alive
            && self.socket_writer_alive)
    }
}

/// Directional independence: a failure in the outbound writer of one side
/// leaves the other side's inbound reader alive and untouched. Until the
/// epoch is torn down that reader forwards exactly as it would have: the
/// failure and the forwarding commute, and the bus the reader feeds grows
/// by exactly the forwarded packet.
pub proof fn lemma_directional_independence(m: EpochModel, side: Side, p: PacketModel)
    requires
        reader_alive(m, other(side)),
    ensures
        ({
            let failed = spec_fail_writer(m, side);
            &&& !healthy(failed)
            &&& reader_alive(failed, other(side))
            &&& spec_forward(failed, other(side), p) == spec_fail_writer(
                spec_forward(m, other(side), p),
                side,
            )
            &&& bus_toward(spec_forward(failed, other(side), p), side) == bus_toward(
                m,
                side,
            ).push(p)
        }),
{
}

/// The bus is first-in first-out per direction: two packets forwarded in
/// order are taken in that order by the opposite side's writer.
pub proof fn lemma_bus_fifo(m: EpochModel, side: Side, p1: PacketModel, p2: PacketModel)
    requires
        bus_toward(m, other(side)).len() == 0,
    ensures
        ({
            let filled = spec_forward(spec_forward(m, side, p1), side, p2);
            let (after_one, first) = spec_take(filled, other(side));
            let (after_two, second) = spec_take(after_one, other(side));
            &&& first == Some(p1)
            &&& second == Some(p2)
            &&& bus_toward(after_two, other(side)).len() == 0
        }),
{
    let filled = spec_forward(spec_forward(m, side, p1), side, p2);
    assert(bus_toward(filled, other(side)) =~= seq![p1, p2]);
    let (after_one, first) = spec_take(filled, other(side));
    assert(bus_toward(after_one, other(side)) =~= seq![p2]);
    let (after_two, second) = spec_take(after_one, other(side));
    assert(bus_toward(after_two, other(side)) =~= Seq::<PacketModel>::empty());
}

} // verus!
