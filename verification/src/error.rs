//! Status codes of the pigpio daemon and their translation into errors.

use vstd::prelude::*;
use vstd::string::StringExecFns;

verus! {

/// Status code: the SPI channel is not valid.
pub const PI_BAD_SPI_CHANNEL: i32 = -76;

/// Status code: the requested SPI speed is not valid.
pub const PI_BAD_SPI_SPEED: i32 = -91;

/// Status code: the SPI flags are not valid.
pub const PI_BAD_FLAGS: i32 = -77;

/// Status code: no auxiliary SPI is available.
pub const PI_NO_AUX_SPI: i32 = -78;

/// Status code: the daemon could not open the SPI device.
pub const PI_SPI_OPEN_FAILED: i32 = -73;

/// Status code: the handle is not a live one.
pub const PI_BAD_HANDLE: i32 = -25;

/// Status code: the byte count of a transfer is not acceptable.
pub const PI_BAD_SPI_COUNT: i32 = -84;

/// Status code: the SPI transfer itself failed.
pub const PI_SPI_XFER_FAILED: i32 = -89;

/// The message carried by an error produced when connecting fails.
pub open spec fn connect_failed_msg() -> Seq<char> {
    "Failed to connect to the local pigpiod server"@
}

/// The message carried by an error produced for a status code that no
/// known entry matches.
pub open spec fn unknown_error_msg() -> Seq<char> {
    "unknown error"@
}

/// The message carried by the error a transfer request fails with when
/// its two buffers differ in length.
pub open spec fn len_mismatch_msg() -> Seq<char> {
    "tx_buf and rx_buf must have the same len"@
}

/// The message that a failed SPI open with status `code` produces:
/// each known code has its own entry, every other code falls back to
/// the unknown-error message.
pub open spec fn spi_open_msg(code: i32) -> Seq<char> {
    if code == PI_BAD_SPI_CHANNEL {
        "bad SPI channel"@
    } else if code == PI_BAD_SPI_SPEED {
        "bad SPI speed"@
    } else if code == PI_BAD_FLAGS {
        "bad flags"@
    } else if code == PI_NO_AUX_SPI {
        "no AUX SPI"@
    } else if code == PI_SPI_OPEN_FAILED {
        "SPI open failed"@
    } else {
        unknown_error_msg()
    }
}

/// The message that a failed read, write or transfer with status `code`
/// produces: each known code has its own entry, every other code falls
/// back to the unknown-error message.
pub open spec fn transfer_msg(code: i32) -> Seq<char> {
    if code == PI_BAD_HANDLE {
        "bad handle"@
    } else if code == PI_BAD_SPI_COUNT {
        "bad buffer size"@
    } else if code == PI_SPI_XFER_FAILED {
        "SPI transfer failed"@
    } else {
        unknown_error_msg()
    }
}

/// Every known status code maps to its own message, never to the
/// unknown-error fallback: the entries of both tables are distinct
/// from it.
pub proof fn lemma_known_code_not_fallback()
    ensures
        spi_open_msg(PI_BAD_SPI_CHANNEL) != unknown_error_msg(),
        spi_open_msg(PI_BAD_SPI_SPEED) != unknown_error_msg(),
        spi_open_msg(PI_BAD_FLAGS) != unknown_error_msg(),
        spi_open_msg(PI_NO_AUX_SPI) != unknown_error_msg(),
        spi_open_msg(PI_SPI_OPEN_FAILED) != unknown_error_msg(),
        transfer_msg(PI_BAD_HANDLE) != unknown_error_msg(),
        transfer_msg(PI_BAD_SPI_COUNT) != unknown_error_msg(),
        transfer_msg(PI_SPI_XFER_FAILED) != unknown_error_msg(),
{
    reveal_strlit("bad SPI channel");
    reveal_strlit("bad SPI speed");
    reveal_strlit("bad flags");
    reveal_strlit("no AUX SPI");
    reveal_strlit("SPI open failed");
    reveal_strlit("bad handle");
    reveal_strlit("bad buffer size");
    reveal_strlit("SPI transfer failed");
    reveal_strlit("unknown error");
    assert("bad SPI speed"@[0] != "unknown error"@[0]);
}

/// A status code outside the SPI open table maps exactly to the
/// unknown-error message.
pub proof fn lemma_unknown_open_code_fallback(code: i32)
    requires
        code != PI_BAD_SPI_CHANNEL,
        code != PI_BAD_SPI_SPEED,
        code != PI_BAD_FLAGS,
        code != PI_NO_AUX_SPI,
        code != PI_SPI_OPEN_FAILED,
    ensures
        spi_open_msg(code) == unknown_error_msg(),
{
}

/// A status code outside the read/write/transfer table maps exactly to
/// the unknown-error message.
pub proof fn lemma_unknown_transfer_code_fallback(code: i32)
    requires
        code != PI_BAD_HANDLE,
        code != PI_BAD_SPI_COUNT,
        code != PI_SPI_XFER_FAILED,
    ensures
        transfer_msg(code) == unknown_error_msg(),
{
}

/// An error of this crate: a single human-readable message.
///
/// Every failure is terminal for the failing call; no retryable or
/// fatal distinction is drawn.
#[derive(Debug, Clone)]
pub struct Error {
    msg: String,
}

impl View for Error {
    type V = Seq<char>;

    closed spec fn view(&self) -> Seq<char> {
        self.msg@
    }
}

impl Error {
    /// The human-readable message this error carries.
    pub fn message(&self) -> (m: &str)
        ensures
            m@ == self@,
    {
        self.msg.as_str()
    }
}

/// Builds an error carrying the given message.
pub(crate) fn err_msg(msg: &str) -> (e: Error)
    ensures
        e@ == msg@,
{
    Error { msg: String::from_str(msg) }
}

/// Maps a status code of a failed SPI open to its error.  The mapping
/// is total: a code outside the table yields the unknown-error entry,
/// never a panic.
pub fn spi_open_error(code: i32) -> (e: Error)
    ensures
        e@ == spi_open_msg(code),
{
    if code == PI_BAD_SPI_CHANNEL {
        err_msg("bad SPI channel")
    } else if code == PI_BAD_SPI_SPEED {
        err_msg("bad SPI speed")
    } else if code == PI_BAD_FLAGS {
        err_msg("bad flags")
    } else if code == PI_NO_AUX_SPI {
        err_msg("no AUX SPI")
    } else if code == PI_SPI_OPEN_FAILED {
        err_msg("SPI open failed")
    } else {
        err_msg("unknown error")
    }
}

/// Maps a status code of a failed read, write or transfer to its error.
/// The mapping is total: a code outside the table yields the
/// unknown-error entry, never a panic.
pub fn transfer_error(code: i32) -> (e: Error)
    ensures
        e@ == transfer_msg(code),
{
    if code == PI_BAD_HANDLE {
        err_msg("bad handle")
    } else if code == PI_BAD_SPI_COUNT {
        err_msg("bad buffer size")
    } else if code == PI_SPI_XFER_FAILED {
        err_msg("SPI transfer failed")
    } else {
        err_msg("unknown error")
    }
}

} // verus!
