//! A streaming gateway between users and a Seafile file server: uploads are
//! relayed into a library and answered with a public link, public links are
//! resolved and their content relayed back.

pub mod config;
pub mod error;
pub mod flow;
pub mod raw;
pub mod relay;
pub mod text;
pub mod token;
pub mod upload;

pub use config::Config;
pub use error::{Error, InternalError, UserFacing};
pub use flow::{FlowAction, FlowEvent, Stage, UploadFlow};
pub use relay::{Action, Event, JoinReason, Relay};
pub use token::{HeaderText, SeafileToken};
pub use upload::{Accepted, FilenameQuery, PartScan, UploadError};
