//! Core logic of a configuration daemon for gaming mice: the device state
//! model, the wire formats of the supported protocols and the decision logic
//! of the protocol drivers, stated and proved against mathematical models.
//!
//! Nothing in this crate touches a device, a bus or a file. A driver
//! operation is a sequence of steps: each step takes what the last
//! transport action gave and answers with the next transport action, and
//! the contract of the step says which. Whoever owns the device node
//! performs the actions.
//!
//! - [`device`], [`staging`]: the state of a device, and how changes are
//!   staged in it.
//! - [`device_database`], [`device_file`], [`hotplug`]: the device catalog,
//!   the files it is read from, and devices that come and go.
//! - [`driver`]: the transport's matching primitive, the protocol drivers
//!   and the registry.
//! - [`actor`]: the actor of one device, which serialises its commits.
//! - [`cli`], [`test_device`]: what the command-line client computes, and
//!   synthetic devices.
//! - [`text`]: reading and writing numbers and words.

pub mod text;
pub mod device_database;
pub mod device;
pub mod driver;
pub mod actor;
pub mod cli;
pub mod test_device;
pub mod device_file;
pub mod staging;
pub mod hotplug;
