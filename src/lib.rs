//! Email dispatch: messages resolved from their sources and personalized
//! per receiver, put in MIME form, handed to a transport, and archived,
//! with the decisions of each step stated and proved.
use vstd::prelude::*;

pub mod text;
pub mod message;
pub mod mime;
pub mod receiver;
pub mod email;
pub mod transmission;
pub mod dispatch;
pub mod archive;
pub mod postgres;
