//! Named shared-memory segments: the rules of their life cycle, the layout of
//! the port directory that stands in for socket names, the record walk of the
//! segment list, and the small integer utilities all of them rely on.
//!
//! The library never talks to the operating system itself. Every protocol is
//! a function from a state and what the system answered to the next state and
//! the next request; the caller performs the requests.

pub mod bytes;
pub mod errno;
pub mod file_name;
pub mod math;
pub mod port_to_uds;
pub mod port_to_uds_protocol;
pub mod scope_guard;
pub mod select;
pub mod shared_memory;
pub mod shm_list;
pub mod socket;
pub mod stat;
pub mod time;
