//! Self-update for command-line programs: what to check, what to tell, and what to do next.
//!
//! The library decides. It compares the running version with the latest release ([`version`],
//! [`precedence`]), throttles checks ([`interval`], [`checker`]), finds out how the executable was
//! installed ([`install`]), and leads through an update one step at a time: interactively
//! ([`session`]) or silently in the background ([`auto`]). Fetching, downloading, reading and
//! writing are left to the program around it, which hands the outcome of each step back.
//!
//! Every function states what it returns in its contract. The properties that span functions are
//! the proof functions whose names begin with `law_`.

pub mod auto;
pub mod auto_laws;
pub mod cargo;
pub mod checker;
pub mod console;
pub mod error;
pub mod github;
pub mod install;
pub mod interval;
pub mod messages;
pub mod options;
pub mod precedence;
pub mod session;
pub mod session_laws;
pub mod shared_laws;
pub mod state;
pub mod text;
pub mod version;

pub use crate::auto::{AutoAction, AutoEvent, AutoUpdate};
pub use crate::checker::Checker;
pub use crate::error::UpdateError;
pub use crate::github::{check_latest_release, Platform};
pub use crate::install::{detect_install_method, InstallMethod, Location};
pub use crate::interval::{default_interval, parse_interval, should_auto_check, Interval};
pub use crate::messages::format_update_banner;
pub use crate::options::{KaishinOptions, UpdateOptions};
pub use crate::session::{Action, Event, Host, Notice, SelfUpdate};
pub use crate::state::{default_state_path, LatestRelease, StatePath, UpdateCheckState};
pub use crate::version::is_update_available;
