//! A pausable runtime module: a single `paused` flag that privileged origins
//! may set.
//!
//! `pause` works; the other two calls carry planted bugs that the contracts
//! state exactly: `unpause` and `toggle` both write the *current* value of
//! the flag back, so `unpause` never unpauses and `toggle` never toggles.

use vstd::prelude::*;

verus! {

/// Where a call comes from: the chain's root, a signed account, or no origin
/// at all.
#[derive(Clone, Copy, PartialEq, Eq, Structural, Debug)]
pub enum Origin {
    /// The chain's root.
    Root,
    /// A transaction signed by the account.
    Signed(u64),
    /// No origin.
    Unsigned,
}

/// Why a call is rejected.
#[derive(Clone, Copy, PartialEq, Eq, Structural, Debug)]
pub enum DispatchError {
    /// The origin may not make this call.
    BadOrigin,
}

/// The module's state: the flag, and the account allowed to drive it besides
/// root.
pub struct PausePallet {
    /// Whether the chain is paused.
    pub paused: bool,
    /// The account the module's privileged origin accepts.
    pub admin: u64,
}

impl PausePallet {
    /// Root may call, and so may the admin by signature.
    pub open spec fn origin_ok(self, origin: Origin) -> bool {
        match origin {
            Origin::Root => true,
            Origin::Signed(who) => who == self.admin,
            Origin::Unsigned => false,
        }
    }

    /// A fresh module: not paused, driven by `admin`.
    pub fn new(admin: u64) -> (r: Self)
        ensures
            r.paused == false,
            r.admin == admin,
    {
        PausePallet { paused: false, admin }
    }

    /// Whether the chain is paused.
    pub fn paused(&self) -> (r: bool)
        ensures
            r == self.paused,
    {
        self.paused
    }

    /// Writes the flag directly, as the chain's storage interface would.
    pub fn set_paused(&mut self, value: bool)
        ensures
            final(self).paused == value,
            final(self).admin == old(self).admin,
    {
        self.paused = value;
    }

    /// Pauses the chain.  Only root or the admin may call.
    pub fn pause(&mut self, origin: Origin) -> (r: Result<(), DispatchError>)
        ensures
            final(self).admin == old(self).admin,
            !old(self).origin_ok(origin) ==> r == Err::<(), DispatchError>(
                DispatchError::BadOrigin,
            ) && final(self).paused == old(self).paused,
            old(self).origin_ok(origin) ==> r == Ok::<(), DispatchError>(()) && final(self).paused
                == true,
    {
        if !self.check_origin(origin) {
            return Err(DispatchError::BadOrigin);
        }
        self.paused = true;
        Ok(())
    }

    /// Unpauses the chain — or should: the current value of the flag is
    /// written back, so a paused chain stays paused.  Only root or the admin
    /// may call.
    pub fn unpause(&mut self, origin: Origin) -> (r: Result<(), DispatchError>)
        ensures
            final(self).admin == old(self).admin,
            final(self).paused == old(self).paused,
            !old(self).origin_ok(origin) ==> r == Err::<(), DispatchError>(
                DispatchError::BadOrigin,
            ),
            old(self).origin_ok(origin) ==> r == Ok::<(), DispatchError>(()),
    {
        if !self.check_origin(origin) {
            return Err(DispatchError::BadOrigin);
        }
        let current = self.paused;
        self.paused = current;
        Ok(())
    }

    /// Toggles the flag — or should: the current value is written back, so
    /// nothing ever changes.  Only root or the admin may call.
    pub fn toggle(&mut self, origin: Origin) -> (r: Result<(), DispatchError>)
        ensures
            final(self).admin == old(self).admin,
            final(self).paused == old(self).paused,
            !old(self).origin_ok(origin) ==> r == Err::<(), DispatchError>(
                DispatchError::BadOrigin,
            ),
            old(self).origin_ok(origin) ==> r == Ok::<(), DispatchError>(()),
    {
        if !self.check_origin(origin) {
            return Err(DispatchError::BadOrigin);
        }
        let current = self.paused;
        self.paused = current;
        Ok(())
    }

    /// Decides whether the origin may drive the module.
    fn check_origin(&self, origin: Origin) -> (r: bool)
        ensures
            r == self.origin_ok(origin),
    {
        match origin {
            Origin::Root => true,
            Origin::Signed(who) => who == self.admin,
            Origin::Unsigned => false,
        }
    }
}

} // verus!
