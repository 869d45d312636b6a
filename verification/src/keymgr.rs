//! Identifiers for keystores and the selection of which store an
//! operation applies to.

use core::str::FromStr;
use vstd::prelude::*;

verus! {

/// An identifier for one keystore instance.
#[derive(Clone, Debug, Eq, PartialEq, Ord, PartialOrd, Hash)]
pub struct KeystoreId(pub String);

impl KeystoreId {
    /// The identifier spelled by the given text.
    pub fn new(s: String) -> (r: Self)
        ensures
            r.0@ == s@,
    {
        KeystoreId(s)
    }
}

/// The error of parsing a [`KeystoreId`]; at present every string is a
/// valid identifier, so parsing never produces it.
#[derive(Clone, Copy, Debug, PartialEq, Eq, Structural)]
pub struct KeystoreIdError;

impl FromStr for KeystoreId {
    type Err = KeystoreIdError;

    fn from_str(s: &str) -> Result<Self, KeystoreIdError> {
        Ok(KeystoreId(s.to_owned()))
    }
}

/// Which keystores an operation should apply to.
#[derive(Copy, Clone, Default, Debug, PartialEq, Eq, Hash)]
pub enum KeystoreSelector<'a> {
    /// Try to use the keystore with the specified identifier.
    Id(&'a KeystoreId),
    /// Use the primary key store.
    #[default]
    Primary,
}

} // verus!
