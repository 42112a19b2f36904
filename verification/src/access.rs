//! Accounts (users and groups) and the authorities that qualify them.
use vstd::prelude::*;

use crate::plat::{PlatStr, PlatString};

verus! {

/// A value that the platform can provide, or the mark that it cannot.
#[derive(Debug, Clone, PartialEq, Eq)]
pub enum Capable<T> {
    Capable(T),
    Incapable,
}

/// The identity of an account.
#[derive(Debug, Clone, PartialEq, Eq)]
pub struct AccessIdent {
    pub name: PlatString,
    pub domain: Capable<Option<PlatString>>,
    pub id: Capable<u32>,
    pub sid: Capable<String>,
}

/// A user account.
#[derive(Debug, Clone, PartialEq, Eq)]
pub struct User {
    pub ident: AccessIdent,
}

/// A group account.
#[derive(Debug, Clone, PartialEq, Eq)]
pub struct Group {
    pub ident: AccessIdent,
}

/// The server that answers for the accounts of a domain.
#[derive(Debug, Clone, PartialEq, Eq)]
pub struct AccessAuthority {
    pub server_name: PlatString,
}

impl AccessAuthority {
    /// The name of the authority's server.
    pub fn server_name(&self) -> (r: PlatStr<'_>)
        ensures
            r@ == self.server_name@,
    {
        self.server_name.as_plat_str()
    }
}

/// A domain together with the authority that answers for it.
#[derive(Debug, Clone, PartialEq, Eq)]
pub struct QualifyingAccessAuthority {
    pub domain: PlatString,
    pub authority: AccessAuthority,
}

impl QualifyingAccessAuthority {
    /// The qualified domain.
    pub fn domain(&self) -> (r: PlatStr<'_>)
        ensures
            r@ == self.domain@,
    {
        self.domain.as_plat_str()
    }

    /// The authority of the domain.
    pub fn authority(&self) -> (r: &AccessAuthority)
        ensures
            *r == self.authority,
    {
        &self.authority
    }
}

/// An authority of a domain as a network component reports it.
#[derive(Debug, Clone, PartialEq, Eq)]
pub struct DomainAuthority {
    pub domain: PlatString,
    pub authority: AccessAuthority,
}

} // verus!
