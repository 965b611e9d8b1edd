//! Control of the KVM switch built into the GIGABYTE M27Q monitor.
//!
//! The monitor exposes a USB billboard device that accepts a small set of
//! vendor control transfers. This crate holds everything that can be decided
//! without touching the bus: which bytes make up a command, in which order
//! commands are queued, which attached device is the monitor, and what a run
//! does next after each answer from the host. A driver performs the steps that
//! a [`run::Run`] asks for and reports back what happened.

pub mod command;
pub mod guarantees;
pub mod input;
pub mod locate;
pub mod menu;
pub mod run;

pub use command::{cmd_queue_from_args, Args, Command};
pub use input::{InvalidInputToken, KvmInput};
pub use locate::{find_device, DeviceId, M27Q_PID, M27Q_VID};
pub use menu::{tray_menu, MenuEntry, MENU_SEPARATOR, TRAY_TITLE};
pub use run::{Event, Outcome, Run, Step, SETTLE_DELAY_MS, TRANSFER_TIMEOUT_MS};
