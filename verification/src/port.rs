//! Communication endpoints of a shell.
use vstd::prelude::*;

use crate::text::views;

verus! {

/// A communication endpoint: protocol, direction, target and permissions.
#[derive(Debug, PartialEq)]
pub struct PortConfig {
    pub protocol: String,
    pub direction: String,
    pub target: String,
    pub permissions: Vec<String>,
    pub enabled: bool,
}

/// The contents of a [`PortConfig`], with every string taken by its characters.
pub ghost struct PortView {
    pub protocol: Seq<char>,
    pub direction: Seq<char>,
    pub target: Seq<char>,
    pub permissions: Seq<Seq<char>>,
    pub enabled: bool,
}

impl View for PortConfig {
    type V = PortView;

    open spec fn view(&self) -> PortView {
        PortView {
            protocol: self.protocol@,
            direction: self.direction@,
            target: self.target@,
            permissions: views(self.permissions@),
            enabled: self.enabled,
        }
    }
}

/// The views of a sequence of ports.
pub open spec fn port_views(ports: Seq<PortConfig>) -> Seq<PortView> {
    ports.map_values(|p: PortConfig| p@)
}

impl Clone for PortConfig {
    fn clone(&self) -> (r: Self)
        ensures
            r@ == self@,
    {
        let permissions = self.permissions.clone();
        assert(views(permissions@) =~= views(self.permissions@));
        PortConfig {
            protocol: self.protocol.clone(),
            direction: self.direction.clone(),
            target: self.target.clone(),
            permissions,
            enabled: self.enabled,
        }
    }
}

impl PortConfig {
    /// An enabled port with read permission only.
    pub fn new(protocol: &str, direction: &str, target: &str) -> (r: Self)
        ensures
            r@ == (PortView {
                protocol: protocol@,
                direction: direction@,
                target: target@,
                permissions: seq!["read"@],
                enabled: true,
            }),
    {
        let mut permissions: Vec<String> = Vec::new();
        permissions.push(String::from_str("read"));
        assert(views(permissions@) =~= seq!["read"@]);
        PortConfig {
            protocol: String::from_str(protocol),
            direction: String::from_str(direction),
            target: String::from_str(target),
            permissions,
            enabled: true,
        }
    }
}

} // verus!
