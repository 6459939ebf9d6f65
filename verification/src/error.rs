//! Errors reported by the spawner.
use vstd::prelude::*;

use crate::text::{decimal, push_decimal};

verus! {

/// Why a spawn, template lookup or teardown was refused.
#[derive(Debug, PartialEq)]
pub enum SpawnError {
    NameExists(String),
    MaxChildrenReached(u32),
    PathConflict(String),
    TemplateNotFound(String),
    SandboxViolation(String),
}

/// An error with its texts taken by their characters.
pub ghost enum ErrorView {
    NameExists(Seq<char>),
    MaxChildrenReached(u32),
    PathConflict(Seq<char>),
    TemplateNotFound(Seq<char>),
    SandboxViolation(Seq<char>),
}

impl View for SpawnError {
    type V = ErrorView;

    open spec fn view(&self) -> ErrorView {
        match self {
            SpawnError::NameExists(n) => ErrorView::NameExists(n@),
            SpawnError::MaxChildrenReached(m) => ErrorView::MaxChildrenReached(*m),
            SpawnError::PathConflict(p) => ErrorView::PathConflict(p@),
            SpawnError::TemplateNotFound(n) => ErrorView::TemplateNotFound(n@),
            SpawnError::SandboxViolation(p) => ErrorView::SandboxViolation(p@),
        }
    }
}

/// The message an error is shown as.
pub open spec fn error_text(e: ErrorView) -> Seq<char> {
    match e {
        ErrorView::NameExists(n) => "child '"@ + n + "' already exists"@,
        ErrorView::MaxChildrenReached(m) => "max children ("@ + decimal(m as nat) + ") reached"@,
        ErrorView::PathConflict(p) => "path conflict: "@ + p,
        ErrorView::TemplateNotFound(n) => "template '"@ + n + "' not found"@,
        ErrorView::SandboxViolation(p) => "sandbox violation: "@ + p,
    }
}

impl Clone for SpawnError {
    fn clone(&self) -> (r: Self)
        ensures
            r == *self,
            r@ == self@,
    {
        match self {
            SpawnError::NameExists(n) => SpawnError::NameExists(n.clone()),
            SpawnError::MaxChildrenReached(m) => SpawnError::MaxChildrenReached(*m),
            SpawnError::PathConflict(p) => SpawnError::PathConflict(p.clone()),
            SpawnError::TemplateNotFound(n) => SpawnError::TemplateNotFound(n.clone()),
            SpawnError::SandboxViolation(p) => SpawnError::SandboxViolation(p.clone()),
        }
    }
}

impl SpawnError {
    /// The message this error is shown as, such as `child 'x' already exists`.
    pub fn to_string(&self) -> (r: String)
        ensures
            r@ == error_text(self@),
    {
        match self {
            SpawnError::NameExists(n) => {
                let mut r = String::from_str("child '");
                r.append(n.as_str());
                r.append("' already exists");
                r
            },
            SpawnError::MaxChildrenReached(m) => {
                let mut r = String::from_str("max children (");
                push_decimal(&mut r, *m as u64);
                r.append(") reached");
                r
            },
            SpawnError::PathConflict(p) => {
                let mut r = String::from_str("path conflict: ");
                r.append(p.as_str());
                r
            },
            SpawnError::TemplateNotFound(n) => {
                let mut r = String::from_str("template '");
                r.append(n.as_str());
                r.append("' not found");
                r
            },
            SpawnError::SandboxViolation(p) => {
                let mut r = String::from_str("sandbox violation: ");
                r.append(p.as_str());
                r
            },
        }
    }
}

} // verus!
