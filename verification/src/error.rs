//! Failures of running receivers and exporters.

use vstd::prelude::*;
use crate::text::append_str;

verus! {

#[derive(Debug)]
pub enum SgError {
    Io(String),
    Config(String),
    ChannelClosed,
    Other(String),
}

pub open spec fn sg_error_text(e: SgError) -> Seq<char> {
    match e {
        SgError::Io(m) => "io error: "@ + m@,
        SgError::Config(m) => "config error: "@ + m@,
        SgError::ChannelClosed => "channel closed"@,
        SgError::Other(m) => m@,
    }
}

impl SgError {
    /// The error's message.
    pub fn to_text(&self) -> (r: String)
        ensures
            r@ == sg_error_text(*self),
    {
        let mut s = String::new();
        match self {
            SgError::Io(m) => {
                append_str(&mut s, "io error: ");
                append_str(&mut s, m.as_str());
            },
            SgError::Config(m) => {
                append_str(&mut s, "config error: ");
                append_str(&mut s, m.as_str());
            },
            SgError::ChannelClosed => append_str(&mut s, "channel closed"),
            SgError::Other(m) => append_str(&mut s, m.as_str()),
        }
        assert(s@ =~= sg_error_text(*self));
        s
    }

    /// The error a receiver reports when its own settings are unusable:
    /// its name, then the cause.
    pub fn config_for(component: &str, cause: &str) -> (r: SgError)
        ensures
            r matches SgError::Config(m) && m@ == component@ + ": "@ + cause@,
    {
        let mut m = String::new();
        append_str(&mut m, component);
        append_str(&mut m, ": ");
        append_str(&mut m, cause);
        assert(m@ =~= component@ + ": "@ + cause@);
        SgError::Config(m)
    }
}

} // verus!
