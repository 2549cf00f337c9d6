//! What a host reports about itself, read and summed up.
//!
//! The library never touches the host. It says which requests bear on a
//! fact (`inquiry`), what the replies mean (`system`, `hardware`, `desktop`,
//! `terminal`, `packages`, `disk`, `network`, `uptime`), and how the summary
//! reads (`report`, `artwork`). Whoever has the host at hand carries the
//! requests out and hands the replies in.
//!
//! Texts are sequences of characters. `text` defines the operations on them,
//! `scan` computes them on slices, and `reading` looks through the lines of
//! a tool's output. `case` names what the standard library knows of upper
//! and lower case. `finding` relates asking question by question to the
//! meaning of each fact.

pub mod text;
pub mod scan;
pub mod case;
pub mod reply;
pub mod reading;
pub mod system;
pub mod hardware;
pub mod desktop;
pub mod terminal;
pub mod packages;
pub mod disk;
pub mod network;
pub mod uptime;
pub mod inquiry;
pub mod finding;
pub mod artwork;
pub mod report;
