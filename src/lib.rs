//! Mailing-list handling for a small web application: accepting subscribers,
//! and deciding, step by step, how an administrator's newsletter is delivered.
use vstd::prelude::*;

pub mod auth;
pub mod dispatch;
pub mod reply;
pub mod request;
pub mod subscription;
pub mod text;

verus! {

} // verus!
