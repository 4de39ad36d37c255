//! The library's error type.
use vstd::prelude::*;

use crate::text::push_str;

verus! {

/// What went wrong, with a human-readable detail.
#[derive(Debug, Clone, PartialEq, Eq)]
pub enum XzramError {
    Io(String),
    Parse(String),
    Config(String),
    Backend(String),
    NotFound(String),
    Permission(String),
    Validation(String),
    Command(String),
}

pub type Result<T> = std::result::Result<T, XzramError>;

impl XzramError {
    /// The detail carried by the error.
    pub open spec fn detail(&self) -> Seq<char> {
        match self {
            XzramError::Io(s) => s@,
            XzramError::Parse(s) => s@,
            XzramError::Config(s) => s@,
            XzramError::Backend(s) => s@,
            XzramError::NotFound(s) => s@,
            XzramError::Permission(s) => s@,
            XzramError::Validation(s) => s@,
            XzramError::Command(s) => s@,
        }
    }

    /// The prefix naming the kind of error in its message.
    pub open spec fn kind_prefix(&self) -> Seq<char> {
        match self {
            XzramError::Io(_) => "I/O error: "@,
            XzramError::Parse(_) => "parse error: "@,
            XzramError::Config(_) => "config error: "@,
            XzramError::Backend(_) => "backend error: "@,
            XzramError::NotFound(_) => "not found: "@,
            XzramError::Permission(_) => "permission denied: "@,
            XzramError::Validation(_) => "validation error: "@,
            XzramError::Command(_) => "command failed: "@,
        }
    }

    /// The full message: kind prefix, then detail.
    pub fn message(&self) -> (m: String)
        ensures
            m@ == self.kind_prefix() + self.detail(),
    {
        let mut m = String::new();
        let d = match self {
            XzramError::Io(s) => {
                push_str(&mut m, "I/O error: ");
                s
            },
            XzramError::Parse(s) => {
                push_str(&mut m, "parse error: ");
                s
            },
            XzramError::Config(s) => {
                push_str(&mut m, "config error: ");
                s
            },
            XzramError::Backend(s) => {
                push_str(&mut m, "backend error: ");
                s
            },
            XzramError::NotFound(s) => {
                push_str(&mut m, "not found: ");
                s
            },
            XzramError::Permission(s) => {
                push_str(&mut m, "permission denied: ");
                s
            },
            XzramError::Validation(s) => {
                push_str(&mut m, "validation error: ");
                s
            },
            XzramError::Command(s) => {
                push_str(&mut m, "command failed: ");
                s
            },
        };
        push_str(&mut m, d.as_str());
        assert(Seq::<char>::empty() + self.kind_prefix() == self.kind_prefix());
        m
    }
}

} // verus!
