//! The calling-convention mode attached to an exported method.

use vstd::prelude::*;

verus! {

/// Policy controlling whether and how a method invocation may be triggered
/// remotely across a distributed-object boundary.
#[derive(Clone, Copy, PartialEq, Eq, PartialOrd, Ord, Hash, Debug, Structural)]
pub enum RpcMode {
    Disabled,
    Remote,
    RemoteSync,
    Master,
    Puppet,
    MasterSync,
    PuppetSync,
}

impl DeepView for RpcMode {
    type V = RpcMode;

    open spec fn deep_view(&self) -> RpcMode {
        *self
    }
}

impl Default for RpcMode {
    fn default() -> (r: Self)
        ensures
            r == RpcMode::Disabled,
    {
        RpcMode::Disabled
    }
}

/// Compares a string slice with a literal key, character for character.
pub fn str_eq(a: &str, b: &str) -> (r: bool)
    ensures
        r == (a@ == b@),
{
    let a_owned: String = a.to_owned();
    let b_owned: String = b.to_owned();
    a_owned == b_owned
}

/// Compares an owned string with a literal key.
pub fn string_is(s: &String, lit: &str) -> (r: bool)
    ensures
        r == (s@ == lit@),
{
    str_eq(s.as_str(), lit)
}

impl RpcMode {
    /// The mode a given token selects: exactly the seven recognized
    /// lowercase-with-underscore tokens map to a mode.
    pub open spec fn spec_parse(s: Seq<char>) -> Option<RpcMode> {
        if s == "remote"@ {
            Some(RpcMode::Remote)
        } else if s == "remote_sync"@ {
            Some(RpcMode::RemoteSync)
        } else if s == "master"@ {
            Some(RpcMode::Master)
        } else if s == "puppet"@ {
            Some(RpcMode::Puppet)
        } else if s == "disabled"@ {
            Some(RpcMode::Disabled)
        } else if s == "master_sync"@ {
            Some(RpcMode::MasterSync)
        } else if s == "puppet_sync"@ {
            Some(RpcMode::PuppetSync)
        } else {
            None
        }
    }

    /// Parses one of the seven recognized tokens; any other string is refused.
    pub fn parse(s: &str) -> (r: Option<RpcMode>)
        ensures
            r == RpcMode::spec_parse(s@),
    {
        if str_eq(s, "remote") {
            Some(RpcMode::Remote)
        } else if str_eq(s, "remote_sync") {
            Some(RpcMode::RemoteSync)
        } else if str_eq(s, "master") {
            Some(RpcMode::Master)
        } else if str_eq(s, "puppet") {
            Some(RpcMode::Puppet)
        } else if str_eq(s, "disabled") {
            Some(RpcMode::Disabled)
        } else if str_eq(s, "master_sync") {
            Some(RpcMode::MasterSync)
        } else if str_eq(s, "puppet_sync") {
            Some(RpcMode::PuppetSync)
        } else {
            None
        }
    }
}

} // verus!
