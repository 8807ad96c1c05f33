//! Cooperative task runtime for a single-core robot controller.
//!
//! The runtime runs the user's control logic without an operating system
//! underneath. Its parts, from the leaves up:
//!
//! - [`time`]: instants on the monotonic microsecond clock;
//! - [`critical_section`]: nested suppression of interrupt delivery;
//! - [`sync`]: a cell and a one-shot signal shared with interrupt handlers;
//! - [`reactor`]: the registry of sleeping tasks, ordered by deadline, with
//!   what it guarantees in [`wake_order`];
//! - [`competition`]: the state machine that follows the competition phase,
//!   with what it guarantees in [`phase_waits`];
//! - [`executor`]: the driver of the one task that is live, with what it
//!   guarantees in [`scheduling`].
//!
//! Beside the runtime stand the decisions of what uses it: the radio link
//! in [`link`], the display's frame buffer in [`graphics`], the startup
//! banner in [`banner`] and the entry-point attribute in [`entry`].
//!
//! Nothing here touches the hardware. Clock readings, status words and
//! register values come in as arguments, and what is to be done with the
//! hardware goes out as results.

pub mod banner;
pub mod competition;
pub mod critical_section;
pub mod entry;
pub mod executor;
pub mod graphics;
pub mod link;
pub mod phase_waits;
pub mod reactor;
pub mod scheduling;
pub mod sync;
pub mod time;
pub mod wake_order;
