//! Composite decryption keys for a credential database.
//!
//! A key gathers up to one credential factor of each kind: a password, the
//! raw bytes of a keyfile, and a hardware challenge-response binding. A key
//! must hold at least one factor before it may be used to open a database;
//! an empty key is a configuration error that callers reject up front.

use vstd::prelude::*;

verus! {

/// A hardware challenge-response binding: the serial number of the chosen
/// device and the slot on it that answers the challenge.
pub struct ChallengeBinding {
    pub serial: u32,
    pub slot: String,
}

/// Ghost image of a `ChallengeBinding`.
pub struct ChallengeBindingView {
    pub serial: u32,
    pub slot: Seq<char>,
}

impl View for ChallengeBinding {
    type V = ChallengeBindingView;

    open spec fn view(&self) -> ChallengeBindingView {
        ChallengeBindingView { serial: self.serial, slot: self.slot@ }
    }
}

/// One input contributing to a database's decryption key.
pub enum CredentialFactor {
    Password(String),
    Keyfile(Vec<u8>),
    ChallengeResponse(ChallengeBinding),
}

/// A composite decryption key for one database. Each factor kind appears at
/// most once; adding a factor of a kind that is already present replaces it.
pub struct DatabaseKey {
    pub password: Option<String>,
    pub keyfile: Option<Vec<u8>>,
    pub challenge: Option<ChallengeBinding>,
}

/// Ghost image of a `DatabaseKey`: the factors as mathematical values.
pub struct DatabaseKeyView {
    pub password: Option<Seq<char>>,
    pub keyfile: Option<Seq<u8>>,
    pub challenge: Option<ChallengeBindingView>,
}

impl DatabaseKeyView {
    /// A key with no factor at all. Such a key is never usable for opening.
    pub open spec fn is_empty(self) -> bool {
        self.password is None && self.keyfile is None && self.challenge is None
    }
}

impl View for DatabaseKey {
    type V = DatabaseKeyView;

    open spec fn view(&self) -> DatabaseKeyView {
        DatabaseKeyView {
            password: match self.password {
                Some(p) => Some(p@),
                None => None,
            },
            keyfile: match self.keyfile {
                Some(f) => Some(f@),
                None => None,
            },
            challenge: match self.challenge {
                Some(c) => Some(c@),
                None => None,
            },
        }
    }
}

impl DatabaseKey {
    /// A new key with no factors.
    pub fn new() -> (r: DatabaseKey)
        ensures
            r@.is_empty(),
    {
        DatabaseKey { password: None, keyfile: None, challenge: None }
    }

    /// Add one factor, replacing any factor of the same kind.
    pub fn with_factor(self, factor: CredentialFactor) -> (r: DatabaseKey)
        ensures
            match factor {
                CredentialFactor::Password(p) => r@ == (DatabaseKeyView {
                    password: Some(p@),
                    ..self@
                }),
                CredentialFactor::Keyfile(f) => r@ == (DatabaseKeyView {
                    keyfile: Some(f@),
                    ..self@
                }),
                CredentialFactor::ChallengeResponse(c) => r@ == (DatabaseKeyView {
                    challenge: Some(c@),
                    ..self@
                }),
            },
    {
        match factor {
            CredentialFactor::Password(p) => DatabaseKey { password: Some(p), ..self },
            CredentialFactor::Keyfile(f) => DatabaseKey { keyfile: Some(f), ..self },
            CredentialFactor::ChallengeResponse(c) => DatabaseKey { challenge: Some(c), ..self },
        }
    }

    /// True when the key holds no factor of any kind.
    pub fn is_empty(&self) -> (r: bool)
        ensures
            r == self@.is_empty(),
    {
        self.password.is_none() && self.keyfile.is_none() && self.challenge.is_none()
    }

    /// An exact copy of the key: same factors, same values.
    pub fn duplicate(&self) -> (r: DatabaseKey)
        ensures
            r@ == self@,
    {
        let password = match &self.password {
            Some(p) => Some(p.clone()),
            None => None,
        };
        let keyfile = match &self.keyfile {
            Some(f) => Some(copy_bytes(f)),
            None => None,
        };
        let challenge = match &self.challenge {
            Some(c) => Some(ChallengeBinding { serial: c.serial, slot: c.slot.clone() }),
            None => None,
        };
        DatabaseKey { password, keyfile, challenge }
    }
}

/// A fresh vector holding the same bytes.
pub(crate) fn copy_bytes(v: &Vec<u8>) -> (r: Vec<u8>)
    ensures
        r@ == v@,
{
    let mut out: Vec<u8> = Vec::new();
    let mut i: usize = 0;
    while i < v.len()
        invariant
            0 <= i <= v@.len(),
            out@ == v@.subrange(0, i as int),
        decreases v@.len() - i,
    {
        out.push(v[i]);
        i = i + 1;
        proof {
            assert(out@ =~= v@.subrange(0, i as int));
        }
    }
    proof {
        assert(out@ =~= v@);
    }
    out
}

} // verus!
