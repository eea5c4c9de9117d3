use frame_support::sp_runtime::traits::BadOrigin;
use frame_system::RawOrigin;
use vstd::prelude::*;

use crate::error::Error;

verus! {

/// `frame_support::dispatch::RawOrigin`, the origin type of the system pallet.
/// Nothing of its inside is known here: values of it are only handed on.
#[verifier::external_type_specification]
#[verifier::external_body]
#[verifier::reject_recursive_types(AccountId)]
pub struct ExRawOrigin<AccountId>(RawOrigin<AccountId>);

/// `sp_runtime::traits::BadOrigin`, the unit error of the origin checks.
#[verifier::external_type_specification]
#[verifier::external_body]
pub struct ExBadOrigin(BadOrigin);

/// Where a call comes from, as the host presents it to this module.
#[derive(Clone, Debug, PartialEq, Eq)]
pub enum Origin<AccountId> {
    /// The system itself, at the highest level of privilege.
    Root,
    /// The holder of an account, who signed the call.
    Signed(AccountId),
    /// Nobody signed the call.
    Anonymous,
    /// Nobody signed the call; the host has authorized it all the same.
    Authorized,
    /// An origin that the system does not define: some other part of the
    /// host made it up.
    Other,
}

impl<AccountId> Origin<AccountId> {
    /// The account that signed the call, where one did.
    pub open spec fn signer(self) -> Option<AccountId> {
        match self {
            Origin::Signed(who) => Some(who),
            _ => None,
        }
    }
}

/// An [`Origin`] on its way into the system's origin checks, which take any
/// type that converts into a `RawOrigin` or else into itself.
struct OuterOrigin<AccountId>(Origin<AccountId>);

/// The conversion that the system's origin checks ask for. The four origins
/// that the system defines become the variant of `RawOrigin` that stands for
/// them, `Anonymous` becoming `RawOrigin::None`; `Other` is handed back as the
/// error, which is how an outer origin says that it is none of the system's.
/// The body is not verified and no contract is stated of it.
impl<AccountId> From<OuterOrigin<AccountId>> for Result<
    RawOrigin<AccountId>,
    OuterOrigin<AccountId>,
> {
    #[verifier::external_body]
    fn from(origin: OuterOrigin<AccountId>) -> (r: Self) {
        match origin.0 {
            Origin::Root => Ok(RawOrigin::Root),
            Origin::Signed(who) => Ok(RawOrigin::Signed(who)),
            Origin::Anonymous => Ok(RawOrigin::None),
            Origin::Authorized => Ok(RawOrigin::Authorized),
            Origin::Other => Err(OuterOrigin(Origin::Other)),
        }
    }
}

/// Calls `frame_system::ensure_signed`. That function converts what it is
/// given into a `RawOrigin`, here by the impl above, and returns the account
/// of `RawOrigin::Signed`, and `BadOrigin` for everything else. The contract
/// claims exactly that: the signer comes back where there is one, an error
/// where there is none. It is believed, not proved.
#[verifier::external_body]
fn system_ensure_signed<AccountId>(origin: Origin<AccountId>) -> (r: Result<AccountId, BadOrigin>)
    ensures
        origin.signer() matches Some(who) ==> r === Ok(who),
        origin.signer() is None ==> r is Err,
{
    frame_system::ensure_signed(OuterOrigin(origin))
}

/// Verifies the origin of a call: the account that signed it, or
/// [`Error::BadOrigin`] where nobody did.
pub fn ensure_signed<AccountId>(origin: Origin<AccountId>) -> (r: Result<AccountId, Error>)
    ensures
        origin.signer() matches Some(who) ==> r === Ok(who),
        origin.signer() is None ==> r === Err(Error::BadOrigin),
{
    match system_ensure_signed(origin) {
        Ok(who) => Ok(who),
        Err(_) => Err(Error::BadOrigin),
    }
}

} // verus!
