//! Which device stands for the controlling terminal, and how it is opened.
//!
//! The device is opened by its own name, so that it is reached even where
//! the standard streams are redirected.

use vstd::prelude::*;
use crate::error::{OsReply, TtyError};

verus! {

/// The family of operating system, by how it names the controlling terminal.
#[derive(Clone, Copy, Debug, PartialEq, Eq, Structural)]
pub enum Platform {
    /// One fixed device path for reading and writing.
    Unix,
    /// No fixed path: the environment names the device.
    Redox,
    /// One console device for input and another for output.
    Windows,
}

/// How the device is to be opened.
#[derive(Clone, Copy, Debug, PartialEq, Eq, Structural)]
pub enum Access {
    ReadOnly,
    WriteOnly,
    ReadWrite,
}

/// A request to open the terminal device.
#[derive(Debug, PartialEq, Eq)]
pub struct OpenRequest {
    pub path: String,
    pub read: bool,
    pub write: bool,
}

/// The name of the device on each platform, where there is one: the fixed
/// path, the path that the environment gives, or the console's input device
/// for everything but write-only access, for which it is the output device.
pub open spec fn device_path(platform: Platform, access: Access, env_tty: Option<Seq<char>>)
    -> Option<Seq<char>> {
    match platform {
        Platform::Unix => Some("/dev/tty"@),
        Platform::Redox => env_tty,
        Platform::Windows => if access == Access::WriteOnly {
            Some("CONOUT$"@)
        } else {
            Some("CONIN$"@)
        },
    }
}

/// The view of an optional string.
pub open spec fn text_of(s: Option<String>) -> Option<Seq<char>> {
    match s {
        Some(t) => Some(t@),
        None => None,
    }
}

/// The request to open the terminal device with the given access.
/// `env_tty` is the value of the environment variable `TTY`, if it is set.
/// Where the platform has no device name to offer there is no terminal.
pub fn open_request(platform: Platform, access: Access, env_tty: Option<String>) -> (out: Result<
    OpenRequest,
    TtyError,
>)
    ensures
        out is Ok <==> device_path(platform, access, text_of(env_tty)) is Some,
        out matches Ok(request) ==> Some(request.path@) == device_path(
            platform,
            access,
            text_of(env_tty),
        ) && request.read == (access != Access::WriteOnly) && request.write == (access
            != Access::ReadOnly),
        out matches Err(e) ==> e == TtyError::NotATerminal,
{
    let read = !matches!(access, Access::WriteOnly);
    let write = !matches!(access, Access::ReadOnly);
    let path = match platform {
        Platform::Unix => "/dev/tty".to_owned(),
        Platform::Redox => match env_tty {
            Some(p) => p,
            None => {
                return Err(TtyError::NotATerminal);
            },
        },
        Platform::Windows => if write && !read {
            "CONOUT$".to_owned()
        } else {
            "CONIN$".to_owned()
        },
    };
    Ok(OpenRequest { path, read, write })
}

/// The request to open the terminal device for reading and writing.
pub fn get_tty(platform: Platform, env_tty: Option<String>) -> (out: Result<OpenRequest, TtyError>)
    ensures
        out is Ok <==> device_path(platform, Access::ReadWrite, text_of(env_tty)) is Some,
        out matches Ok(request) ==> Some(request.path@) == device_path(
            platform,
            Access::ReadWrite,
            text_of(env_tty),
        ) && request.read && request.write,
        out matches Err(e) ==> e == TtyError::NotATerminal,
{
    open_request(platform, Access::ReadWrite, env_tty)
}

/// The request to open the terminal device for reading only.
pub fn get_read_tty(platform: Platform, env_tty: Option<String>) -> (out: Result<
    OpenRequest,
    TtyError,
>)
    ensures
        out is Ok <==> device_path(platform, Access::ReadOnly, text_of(env_tty)) is Some,
        out matches Ok(request) ==> Some(request.path@) == device_path(
            platform,
            Access::ReadOnly,
            text_of(env_tty),
        ) && request.read && !request.write,
        out matches Err(e) ==> e == TtyError::NotATerminal,
{
    open_request(platform, Access::ReadOnly, env_tty)
}

/// The request to open the terminal device for writing only.
pub fn get_write_tty(platform: Platform, env_tty: Option<String>) -> (out: Result<
    OpenRequest,
    TtyError,
>)
    ensures
        out is Ok <==> device_path(platform, Access::WriteOnly, text_of(env_tty)) is Some,
        out matches Ok(request) ==> Some(request.path@) == device_path(
            platform,
            Access::WriteOnly,
            text_of(env_tty),
        ) && !request.read && request.write,
        out matches Err(e) ==> e == TtyError::NotATerminal,
{
    open_request(platform, Access::WriteOnly, env_tty)
}

/// Reads the answer to an open request: the handle, or the finding that
/// there is no controlling terminal.
pub fn tty_opened<H>(reply: OsReply<H>) -> (out: Result<H, TtyError>)
    ensures
        reply is Accepted ==> out == Ok::<H, TtyError>(reply->Accepted_0),
        !(reply is Accepted) ==> out == Err::<H, TtyError>(TtyError::NotATerminal),
{
    match reply {
        OsReply::Accepted(handle) => Ok(handle),
        _ => Err(TtyError::NotATerminal),
    }
}

} // verus!
