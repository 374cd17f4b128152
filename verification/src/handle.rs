//! The two owning handles: a daemon connection and an SPI device.

use vstd::prelude::*;
use crate::error::Error;
use crate::error::connect_failed_msg;
use crate::error::err_msg;
use crate::error::len_mismatch_msg;
use crate::error::spi_open_error;
use crate::error::spi_open_msg;
use crate::error::transfer_error;
use crate::error::transfer_msg;

verus! {

/// A client session with the pigpio daemon: the entry point for the
/// GPIO routines.  It owns the numeric identifier the daemon returned
/// on a successful connect.
///
/// The handle is a single-owner resource; it is valid only while it is
/// open, and its release action is handed out exactly once.
#[derive(Debug)]
pub struct Pigpio {
    handle: i32,
    open: bool,
}

impl Pigpio {
    /// The daemon identifier this connection owns.
    pub closed spec fn id(self) -> i32 {
        self.handle
    }

    /// Whether this connection still owns its daemon resource.
    pub closed spec fn is_open(self) -> bool {
        self.open
    }

    /// A connection is well formed when its identifier is one the
    /// daemon can have returned: a non-negative number.
    pub open spec fn wf(self) -> bool {
        self.id() >= 0
    }

    /// Interprets the daemon's reply to a connect request.  A
    /// non-negative reply is the identifier of the new session and
    /// yields an open connection holding exactly that identifier; a
    /// negative reply yields the connect-failure error.
    pub fn new(raw: i32) -> (r: Result<Pigpio, Error>)
        ensures
            raw >= 0 ==> (r matches Ok(p) && p.id() == raw && p.is_open() && p.wf()),
            raw < 0 ==> (r matches Err(e) && e@ == connect_failed_msg()),
    {
        if raw >= 0 {
            Ok(Pigpio { handle: raw, open: true })
        } else {
            Err(err_msg("Failed to connect to the local pigpiod server"))
        }
    }

    /// The identifier to pass to the daemon for every call made on this
    /// connection.
    pub fn handle(&self) -> (h: i32)
        ensures
            h == self.id(),
    {
        self.handle
    }

    /// Interprets the daemon's reply to an SPI open request made on
    /// this connection.  A non-negative reply is the new device handle
    /// and yields an open SPI handle tied to this connection's
    /// identifier; a negative reply yields the error its status code
    /// maps to.
    pub fn spi(&self, raw: i32) -> (r: Result<Spi, Error>)
        requires
            self.wf(),
        ensures
            raw >= 0 ==> (r matches Ok(s) && s.pi_id() == self.id() && s.channel_id() == raw
                as u32 && s.is_open() && s.wf()),
            raw < 0 ==> (r matches Err(e) && e@ == spi_open_msg(raw)),
    {
        if raw >= 0 {
            Ok(Spi { pi_handle: self.handle, spi_handle: raw as u32, open: true })
        } else {
            Err(spi_open_error(raw))
        }
    }

    /// The connection after its release: the identifier is kept, the
    /// open mark is gone.
    pub closed spec fn released(self) -> Pigpio {
        Pigpio { handle: self.handle, open: false }
    }

    /// The stop action a release of this connection hands out: the
    /// identifier to stop while the connection is open, nothing
    /// afterwards.
    pub closed spec fn release_action(self) -> Option<i32> {
        if self.open {
            Some(self.handle)
        } else {
            None
        }
    }

    /// Ends this connection's life.  The first call on an open
    /// connection yields the identifier the caller must issue the
    /// daemon's stop call for; any further call yields nothing, so the
    /// stop call is made exactly once.  Failed operations never touch
    /// the open mark, so they do not change what a release yields.
    pub fn release(&mut self) -> (r: Option<i32>)
        ensures
            *final(self) == old(self).released(),
            r == old(self).release_action(),
            old(self).is_open() ==> r == Some(old(self).id()),
            !old(self).is_open() ==> r is None,
            !final(self).is_open() && final(self).id() == old(self).id(),
    {
        if self.open {
            self.open = false;
            Some(self.handle)
        } else {
            None
        }
    }
}

/// A released connection hands out no further stop action: whatever
/// state a connection is in, one release leaves it closed, and a
/// release of a closed connection yields nothing.
pub proof fn lemma_connection_release_once(p: Pigpio)
    ensures
        !p.released().is_open(),
        p.released().release_action() is None,
        p.is_open() ==> p.release_action() == Some(p.id()),
{
}

/// An SPI device on a channel of the daemon.  It owns the pair of the
/// connection identifier it was opened under and the device handle the
/// daemon returned.
///
/// The handle is a single-owner resource; it is valid only while it is
/// open, and its release action is handed out exactly once.  That it
/// does not outlive its connection is a documented constraint on the
/// caller, not one this type enforces: the daemon's device handle is
/// independent of any in-process connection value.
#[derive(Debug)]
pub struct Spi {
    pi_handle: i32,
    spi_handle: u32,
    open: bool,
}

impl Spi {
    /// The identifier of the connection this device was opened under.
    pub closed spec fn pi_id(self) -> i32 {
        self.pi_handle
    }

    /// The device handle the daemon returned for this channel.
    pub closed spec fn channel_id(self) -> u32 {
        self.spi_handle
    }

    /// Whether this handle still owns its daemon resource.
    pub closed spec fn is_open(self) -> bool {
        self.open
    }

    /// An SPI handle is well formed when its connection identifier is
    /// one the daemon can have returned: a non-negative number.
    pub open spec fn wf(self) -> bool {
        self.pi_id() >= 0
    }

    /// The connection identifier to pass to the daemon for every call
    /// made on this device.
    pub fn pi_handle(&self) -> (h: i32)
        ensures
            h == self.pi_id(),
    {
        self.pi_handle
    }

    /// The device handle to pass to the daemon for every call made on
    /// this device.
    pub fn spi_handle(&self) -> (h: u32)
        ensures
            h == self.channel_id(),
    {
        self.spi_handle
    }

    /// Interprets the daemon's reply to a read request.  A
    /// non-negative reply is exactly the number of bytes transferred;
    /// a negative reply yields the error its status code maps to.
    pub fn read(&self, raw: i32) -> (r: Result<usize, Error>)
        ensures
            raw >= 0 ==> r == Ok::<usize, Error>(raw as usize),
            raw < 0 ==> (r matches Err(e) && e@ == transfer_msg(raw)),
    {
        if raw >= 0 {
            Ok(raw as usize)
        } else {
            Err(transfer_error(raw))
        }
    }

    /// Interprets the daemon's reply to a write request.  A
    /// non-negative reply is exactly the number of bytes transferred;
    /// a negative reply yields the error its status code maps to.
    pub fn write(&self, raw: i32) -> (r: Result<usize, Error>)
        ensures
            raw >= 0 ==> r == Ok::<usize, Error>(raw as usize),
            raw < 0 ==> (r matches Err(e) && e@ == transfer_msg(raw)),
    {
        if raw >= 0 {
            Ok(raw as usize)
        } else {
            Err(transfer_error(raw))
        }
    }

    /// Validates a full-duplex transfer before anything reaches the
    /// daemon.  Buffers of equal length (zero included) yield the
    /// common byte count to request, so exactly one daemon call
    /// follows; buffers of unequal length yield the length-mismatch
    /// error at once, so no daemon call is made at all.
    pub fn xfer_request(&self, tx_len: usize, rx_len: usize) -> (r: Result<usize, Error>)
        ensures
            tx_len == rx_len ==> r == Ok::<usize, Error>(tx_len),
            tx_len != rx_len ==> (r matches Err(e) && e@ == len_mismatch_msg()),
    {
        if tx_len != rx_len {
            Err(err_msg("tx_buf and rx_buf must have the same len"))
        } else {
            Ok(tx_len)
        }
    }

    /// Interprets the daemon's reply to a full-duplex transfer.  A
    /// non-negative reply is exactly the number of bytes transferred;
    /// a negative reply yields the error its status code maps to.
    pub fn xfer(&self, raw: i32) -> (r: Result<usize, Error>)
        ensures
            raw >= 0 ==> r == Ok::<usize, Error>(raw as usize),
            raw < 0 ==> (r matches Err(e) && e@ == transfer_msg(raw)),
    {
        if raw >= 0 {
            Ok(raw as usize)
        } else {
            Err(transfer_error(raw))
        }
    }

    /// The handle after its release: both identifiers are kept, the
    /// open mark is gone.
    pub closed spec fn released(self) -> Spi {
        Spi { pi_handle: self.pi_handle, spi_handle: self.spi_handle, open: false }
    }

    /// The close action a release of this handle hands out: the pair
    /// of identifiers to close while the handle is open, nothing
    /// afterwards.
    pub closed spec fn release_action(self) -> Option<(i32, u32)> {
        if self.open {
            Some((self.pi_handle, self.spi_handle))
        } else {
            None
        }
    }

    /// Ends this handle's life.  The first call on an open handle
    /// yields the identifier pair the caller must issue the daemon's
    /// close call for; any further call yields nothing, so the close
    /// call is made exactly once.  Failed operations never touch the
    /// open mark, so they do not change what a release yields.
    pub fn release(&mut self) -> (r: Option<(i32, u32)>)
        ensures
            *final(self) == old(self).released(),
            r == old(self).release_action(),
            old(self).is_open() ==> r == Some((old(self).pi_id(), old(self).channel_id())),
            !old(self).is_open() ==> r is None,
            !final(self).is_open() && final(self).pi_id() == old(self).pi_id(),
            final(self).channel_id() == old(self).channel_id(),
    {
        if self.open {
            self.open = false;
            Some((self.pi_handle, self.spi_handle))
        } else {
            None
        }
    }
}

/// A released SPI handle hands out no further close action: whatever
/// state a handle is in, one release leaves it closed, and a release
/// of a closed handle yields nothing.
pub proof fn lemma_spi_release_once(s: Spi)
    ensures
        !s.released().is_open(),
        s.released().release_action() is None,
        s.is_open() ==> s.release_action() == Some((s.pi_id(), s.channel_id())),
{
}

} // verus!
