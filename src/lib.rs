//! Control commands for Open vSwitch daemons over their unixctl socket.
//!
//! The library holds the protocol's decisions: how a request is written on the
//! wire, how its id is assigned and checked against the response, how failures
//! are classified, where a daemon's control socket is found, and how the
//! replies of the built-in commands are read. Opening the socket, reading the
//! files and moving the bytes is left to the caller, who hands the outcomes in.

pub mod error;
pub mod jsonrpc;
pub mod ovs;
pub mod text;

pub use error::Error;
pub use jsonrpc::{encode_request, receive, Client, FailureKind, Received, Request, Response};
pub use ovs::{find_socket_at, parse_command_list, parse_version, pid_file_path, rundir, OvsUnixCtl};
