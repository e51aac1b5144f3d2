//! The decisions of krakend, a service that runs once per machine and lets
//! clients read and set the attributes of the devices of the kraken drivers.
//!
//! The service claims a runtime directory through a marker file that names
//! its process, obtains a listening socket, which it makes itself or takes
//! over from a supervisor, tells the supervisor how it is doing, and answers
//! one request per connection. This library decides what is done at each of
//! these steps and what each outcome leads to; the program around it touches
//! the files, the sockets and the system.
//!
//! - `startup`, `daemon`, `init_system`: the order of a run, the fork into the
//!   background, the two ways of being run, and what a supervisor is told.
//! - `pidlock`: the runtime directory and its marker file.
//! - `channel`, `sockets`, `perms`, `group`: the listening socket, the
//!   descriptors a supervisor hands over, the mode and group of a socket file.
//! - `server`, `framing`, `document`, `protocol`, `response`, `attribute`,
//!   `device`: the accept loop, where a request ends, what it asks for, and
//!   the response to it.
//! - `errors`: the errors, in words and as exit status.
//! - `decimal`, `text`, `paths`, `sysconst`: numbers as text, texts, paths,
//!   and the numbers of the system interface.

use vstd::prelude::*;

pub mod attribute;
pub mod channel;
pub mod daemon;
pub mod decimal;
pub mod device;
pub mod document;
pub mod errors;
pub mod framing;
pub mod group;
pub mod init_system;
pub mod paths;
pub mod perms;
pub mod pidlock;
pub mod protocol;
pub mod response;
pub mod server;
pub mod sockets;
pub mod startup;
pub mod sysconst;
pub mod text;

verus! {

/// The name of the service.
pub const NAME: &'static str = "krakend";

} // verus!
