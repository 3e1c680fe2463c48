//! The device session.
//!
//! A [`UsbTmcDevice`] stands for one open connection to the character device of an
//! instrument. It holds the file descriptor of that connection and nothing else: no
//! buffer, no queue, no record of earlier calls.
//!
//! Every operation is one system call, made by the caller, and one decision, made here:
//! what the operation returns for the outcome of that call. An outcome is a plain
//! `Result`, with the `errno` of a failed call as its error. The decision never asks for
//! a second attempt, so a failed call is always a failed operation.

use vstd::prelude::*;

use crate::error::Error;

verus! {

/// Identifier of the USB-TMC driver in a control request (`linux/usb/tmc.h`).
pub const USBTMC_IOC_NR: u8 = 91;

/// Number of the control request that reads the driver's API version. The request
/// reads one `u32` in the machine's byte order.
pub const USBTMC_IOCTL_API_VERSION: u8 = 16;

/// What an operation returns for the outcome of its system call: the value of a call
/// that succeeded, unchanged, and the `errno` of one that failed, as an [`Error`].
pub open spec fn surfaced<T>(outcome: Result<T, i32>) -> Result<T, Error> {
    match outcome {
        Ok(value) => Ok(value),
        Err(errno) => Err(Error::NixError(errno)),
    }
}

/// What [`UsbTmcDevice::open`] returns for the outcome of the system call `open`: the
/// session that holds the descriptor, or the error and no session.
pub open spec fn opened(outcome: Result<i32, i32>) -> Result<UsbTmcDevice, Error> {
    match outcome {
        Ok(fd) => Ok(UsbTmcDevice::holding(fd)),
        Err(errno) => Err(Error::NixError(errno)),
    }
}

/// What [`UsbTmcDevice::get_api_version`] returns: the number that the driver wrote,
/// whatever the control request returned beside it, or the error of the request.
pub open spec fn reported_version(status: Result<i32, i32>, version: u32) -> Result<u32, Error> {
    match status {
        Ok(_) => Ok(version),
        Err(errno) => Err(Error::NixError(errno)),
    }
}

/// One open connection to a USB-TMC device.
///
/// The session owns its descriptor. It cannot be copied, and [`UsbTmcDevice::close`]
/// takes it by value, so a descriptor is given up for release once.
#[derive(Debug)]
pub struct UsbTmcDevice {
    fhndl: i32,
}

impl View for UsbTmcDevice {
    type V = i32;

    /// The file descriptor that the session holds.
    closed spec fn view(&self) -> i32 {
        self.fhndl
    }
}

impl UsbTmcDevice {
    /// The session that holds the descriptor `fd`.
    pub closed spec fn holding(fd: i32) -> UsbTmcDevice {
        UsbTmcDevice { fhndl: fd }
    }

    /// Makes the session from the outcome of the system call `open` on the device's
    /// path, asked for reading and writing and with no other flag.
    ///
    /// A granted descriptor becomes the session that holds it. A refused call (no such
    /// path, no permission, device held by another) gives its error, and no session
    /// exists.
    pub fn open(outcome: Result<i32, i32>) -> (r: Result<UsbTmcDevice, Error>)
        ensures
            r == opened(outcome),
            match outcome {
                Ok(fd) => r matches Ok(dev) && dev@ == fd,
                Err(errno) => r matches Err(e) && e == Error::NixError(errno),
            },
    {
        match outcome {
            Ok(fhndl) => Ok(UsbTmcDevice { fhndl }),
            Err(errno) => Err(Error::NixError(errno)),
        }
    }

    /// The descriptor on which the caller makes the system calls of this session.
    pub fn descriptor(&self) -> (fd: i32)
        ensures
            fd == self@,
    {
        self.fhndl
    }

    /// The API version of the driver, from one control request
    /// ([`USBTMC_IOC_NR`], [`USBTMC_IOCTL_API_VERSION`]) on the descriptor.
    ///
    /// `status` is what the request returned and `version` the number that the driver
    /// wrote. The number is returned as it is: it is not read as a version of any scheme.
    pub fn get_api_version(&self, status: Result<i32, i32>, version: u32) -> (r: Result<
        u32,
        Error,
    >)
        ensures
            r == reported_version(status, version),
            status is Ok ==> r == Ok::<u32, Error>(version),
    {
        match status {
            Ok(_) => Ok(version),
            Err(errno) => Err(Error::NixError(errno)),
        }
    }

    /// The count of bytes that left in one system call `write` of `data` on the
    /// descriptor, of which `outcome` is the outcome.
    ///
    /// The count is the operating system's: it may be less than the length of `data`,
    /// and nothing is sent again here. It is within the length of `data` whenever the
    /// outcome is, and it is that length when all of `data` was accepted.
    pub fn write(&self, data: &[u8], outcome: Result<usize, i32>) -> (r: Result<usize, Error>)
        ensures
            r == surfaced(outcome),
            (outcome matches Ok(accepted) && accepted <= data@.len()) ==> (r matches Ok(count)
                && count <= data@.len()),
            (outcome matches Ok(accepted) && accepted == data@.len()) ==> (r matches Ok(count)
                && count == data@.len()),
    {
        match outcome {
            Ok(nwritten) => Ok(nwritten),
            Err(errno) => Err(Error::NixError(errno)),
        }
    }

    /// The count of bytes that arrived in one system call `read` into `buf` on the
    /// descriptor, of which `outcome` is the outcome.
    ///
    /// The count may be zero (no data, or the end of it) or less than the length of
    /// `buf`. It is within that length whenever the outcome is. Nothing is said of the
    /// bytes of `buf` behind the count.
    pub fn read(&self, buf: &[u8], outcome: Result<usize, i32>) -> (r: Result<usize, Error>)
        ensures
            r == surfaced(outcome),
            (outcome matches Ok(filled) && filled <= buf@.len()) ==> (r matches Ok(count)
                && count <= buf@.len()),
    {
        match outcome {
            Ok(nread) => Ok(nread),
            Err(errno) => Err(Error::NixError(errno)),
        }
    }

    /// Ends the session and gives up its descriptor, which the caller releases with the
    /// system call `close`.
    ///
    /// The session is taken by value: after the call none is left that could give the
    /// descriptor up a second time.
    pub fn close(self) -> (fd: i32)
        ensures
            fd == self@,
    {
        self.fhndl
    }
}

/// A session is its descriptor: it holds no other state, and the session that holds a
/// descriptor shows that descriptor.
pub proof fn lemma_session_is_its_descriptor(a: UsbTmcDevice, b: UsbTmcDevice, fd: i32)
    ensures
        UsbTmcDevice::holding(fd)@ == fd,
        a@ == b@ ==> a == b,
        a == UsbTmcDevice::holding(a@),
{
}

/// From open to close: a granted descriptor gives one session, whose end gives up that
/// same descriptor; a refused open gives the error of the call and no session.
pub proof fn lemma_open_then_close(outcome: Result<i32, i32>)
    ensures
        match outcome {
            Ok(fd) => opened(outcome) matches Ok(dev) && dev@ == fd,
            Err(errno) => opened(outcome) == Err::<UsbTmcDevice, Error>(Error::NixError(errno)),
        },
{
}

/// One attempt: an operation fails exactly when its system call failed, with the
/// `errno` of that call, and succeeds with the value of the call otherwise.
pub proof fn lemma_single_attempt<T>(outcome: Result<T, i32>)
    ensures
        surfaced(outcome) is Err <==> outcome is Err,
        outcome matches Err(errno) ==> surfaced(outcome) == Err::<T, Error>(
            Error::NixError(errno),
        ),
        outcome matches Ok(value) ==> surfaced(outcome) == Ok::<T, Error>(value),
{
}

} // verus!
