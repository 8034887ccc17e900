//! Derives the `until` and `wait` dates of a task from its due date and the
//! two relative attributes `untilrel` and `waitrel`.
//!
//! A task arrives as a [`record::TaskRecord`]. Each relative attribute is
//! resolved to an offset in seconds ([`offset`], with [`spelling`] for the
//! arithmetic), the dates are derived from the due date ([`derive`], with
//! [`timestamp`] for the instants), and [`filter`] decides what is written for
//! a line of input. What holds of every record is collected in [`laws`].

pub mod derive;
pub mod filter;
pub mod laws;
pub mod offset;
pub mod record;
pub mod spelling;
pub mod timestamp;
