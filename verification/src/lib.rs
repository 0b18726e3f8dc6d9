//! The core of a wrapper around libuv: the decisions that the wrapper takes on what libuv hands
//! back (status codes, handle and request types, socket addresses, flags, the records of the
//! operating-system queries), each with a contract that states what it does.
use vstd::prelude::*;

pub mod c_string;
pub mod error;
pub mod event_loop;
pub mod events;
pub mod flags;
pub mod fs_type;
pub mod handle_type;
pub mod misc;
pub mod net;
pub mod os;
pub mod process;
pub mod req_type;
pub mod shared_libs;
pub mod tty;

pub use c_string::{c_string, c_string_array, NulError};
pub use error::{
    count_result, decodes_to, init_result, status_result, uvret, uvret_with, value_result, Error,
};
pub use event_loop::RunMode;
pub use events::{fs_event_args, poll_args, udp_recv_args};
pub use flags::{
    AddrInfoFlags, ChmodFlags, FlagSet, Flags, FsEvent, FsEventFlags, PipeFlags, PollEvents,
    ProcessFlags, StdioFlags, TcpBindFlags, TcpFlags, UdpBindFlags, UdpFlags, UdpRecvFlags,
};
pub use fs_type::FsType;
pub use handle_type::{check_handle_type, ConversionError, HandleType};
pub use misc::{
    first_title_size, process_title_step, required_size_result, ClockId, CpuInfo, ResourceUsage,
    TimeSpec64, TimeVal, TitleStep,
};
pub use net::{
    addr_infos, build_socketaddr, fill_sockaddr, AddrFamily, AddrInfo, InterfaceAddress, Membership,
    RawAddrInfo, SocketAddress,
};
pub use os::{id_from_raw, Gid, Group, Pid, SystemInfo, Uid, User};
pub use process::{spawn_strings, ProcessOptions, SpawnStrings, StdioContainer, StdioType};
pub use req_type::ReqType;
pub use shared_libs::{dlret, DLError};
pub use tty::{TtyMode, VTermState};

verus! {
} // verus!
