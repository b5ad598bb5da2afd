//! The converter's persisted state: the registry singleton and the pending
//! owner of the two-step ownership handover.

use vstd::prelude::*;

verus! {

/// The registry singleton: the administrator and the registration fields
/// binding the converter to its two assets.  Each registration field moves
/// at most once from unset to set and is never overwritten.
#[derive(Clone, Debug, PartialEq, Eq)]
pub struct Config {
    /// Identity of the current administrator.
    pub owner: String,
    /// Identifier of the bridged token ledger; unset until registered.
    pub basset_token_address: Option<String>,
    /// Identifier of the native coin accepted for conversion; unset until
    /// registered.
    pub native_denom: Option<String>,
    /// Decimal precision of the native asset; unset until registered.
    pub denom_decimals: Option<u8>,
}

/// Spec-level image of `Config`.
#[verifier::ext_equal]
pub struct ConfigView {
    pub owner: Seq<char>,
    pub basset_token_address: Option<Seq<char>>,
    pub native_denom: Option<Seq<char>>,
    pub denom_decimals: Option<u8>,
}

impl View for Config {
    type V = ConfigView;

    open spec fn view(&self) -> ConfigView {
        ConfigView {
            owner: self.owner@,
            basset_token_address: self.basset_token_address.deep_view(),
            native_denom: self.native_denom.deep_view(),
            denom_decimals: self.denom_decimals,
        }
    }
}

impl ConfigView {
    /// All three registration fields have been set.
    pub open spec fn is_registered(self) -> bool {
        self.basset_token_address is Some && self.native_denom is Some
            && self.denom_decimals is Some
    }
}

/// The pending-owner singleton of the two-step ownership handover.  It is
/// created at initialization naming the creator, overwritten by the current
/// owner's proposal, and copied into `Config::owner` on acceptance.
#[derive(Clone, Debug, PartialEq, Eq)]
pub struct NewOwnerAddr {
    /// Identity nominated to become the next administrator.
    pub new_owner_addr: String,
}

impl View for NewOwnerAddr {
    type V = Seq<char>;

    open spec fn view(&self) -> Seq<char> {
        self.new_owner_addr@
    }
}

} // verus!
