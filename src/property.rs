use vstd::prelude::*;
use vstd::slice::slice_to_vec;
use vstd::string::StringSliceAdditionalSpecFns;

use crate::error::Errors;
use crate::identity::Identity;
use crate::ledger::LedgerAction;

verus! {

pub const MAX_NAME_LEN: usize = 32;

pub const MAX_SYMBOL_LEN_AT_CREATION: usize = 3;

pub const MAX_SYMBOL_LEN_AT_UPDATE: usize = 8;

/// The registry record of one property.
#[derive(Clone, Debug)]
pub struct Property {
    pub admin: Identity,
    pub property_name: Vec<u8>,
    pub total_tokens: u64,
    pub available_tokens: u64,
    pub token_price_usdc: u64,
    pub mint: Identity,
    pub token_symbol: Vec<u8>,
    pub bump: u8,
    pub dividends_total: u64,
    pub is_closed: bool,
}

/// The mathematical content of a [`Property`].
pub struct PropertyModel {
    pub admin: Seq<u8>,
    pub name: Seq<u8>,
    pub total_tokens: u64,
    pub available_tokens: u64,
    pub token_price_usdc: u64,
    pub mint: Seq<u8>,
    pub symbol: Seq<u8>,
    pub bump: u8,
    pub dividends_total: u64,
    pub is_closed: bool,
}

impl View for Property {
    type V = PropertyModel;

    open spec fn view(&self) -> PropertyModel {
        PropertyModel {
            admin: self.admin@,
            name: self.property_name@,
            total_tokens: self.total_tokens,
            available_tokens: self.available_tokens,
            token_price_usdc: self.token_price_usdc,
            mint: self.mint@,
            symbol: self.token_symbol@,
            bump: self.bump,
            dividends_total: self.dividends_total,
            is_closed: self.is_closed,
        }
    }
}

impl PropertyModel {
    /// What every live property satisfies: a positive supply and price, and
    /// never more units for sale than exist.
    pub open spec fn wf(self) -> bool {
        &&& self.total_tokens > 0
        &&& self.token_price_usdc > 0
        &&& self.available_tokens <= self.total_tokens
    }
}

impl Property {
    pub open spec fn wf(&self) -> bool {
        self@.wf()
    }

    /// Whether the record satisfies what every live property satisfies; a
    /// record read from storage is tested with it before it is operated on.
    pub fn is_well_formed(&self) -> (r: bool)
        ensures
            r == self.wf(),
    {
        self.total_tokens > 0 && self.token_price_usdc > 0 && self.available_tokens
            <= self.total_tokens
    }
}

pub open spec fn valid_name(name: Seq<u8>) -> bool {
    0 < name.len() <= MAX_NAME_LEN
}

pub open spec fn valid_symbol(symbol: Seq<u8>, max_len: usize) -> bool {
    0 < symbol.len() <= max_len
}

/// The outcome of registering a property.
pub open spec fn spec_create_property(
    admin: Seq<u8>,
    mint: Seq<u8>,
    name: Seq<u8>,
    total_tokens: u64,
    token_price_usdc: u64,
    symbol: Seq<u8>,
    bump: u8,
) -> Result<PropertyModel, Errors> {
    if total_tokens == 0 {
        Err(Errors::InvalidTotalTokens)
    } else if token_price_usdc == 0 {
        Err(Errors::InvalidTokenPrice)
    } else if !valid_name(name) {
        Err(Errors::InvalidPropertyName)
    } else if !valid_symbol(symbol, MAX_SYMBOL_LEN_AT_CREATION) {
        Err(Errors::InvalidTokenSymbol)
    } else {
        Ok(
            PropertyModel {
                admin,
                name,
                total_tokens,
                available_tokens: total_tokens,
                token_price_usdc,
                mint,
                symbol,
                bump,
                dividends_total: 0,
                is_closed: false,
            },
        )
    }
}

/// Registers a property and issues its whole supply into its vault.
pub fn create_property(
    admin: Identity,
    mint: Identity,
    property_name: &str,
    total_tokens: u64,
    token_price_usdc: u64,
    token_symbol: &str,
    bump: u8,
) -> (r: Result<(Property, Vec<LedgerAction>), Errors>)
    ensures
        match spec_create_property(
            admin@,
            mint@,
            property_name.spec_bytes(),
            total_tokens,
            token_price_usdc,
            token_symbol.spec_bytes(),
            bump,
        ) {
            Ok(m) => r matches Ok((p, actions)) && p@ == m && p.wf() && actions@ == seq![
                LedgerAction::MintUnits { amount: total_tokens },
            ],
            Err(e) => r == Err::<(Property, Vec<LedgerAction>), Errors>(e),
        },
{
    if total_tokens == 0 {
        return Err(Errors::InvalidTotalTokens);
    }
    if token_price_usdc == 0 {
        return Err(Errors::InvalidTokenPrice);
    }
    let name_len = property_name.as_bytes().len();
    if name_len == 0 || name_len > MAX_NAME_LEN {
        return Err(Errors::InvalidPropertyName);
    }
    let symbol_len = token_symbol.as_bytes().len();
    if symbol_len == 0 || symbol_len > MAX_SYMBOL_LEN_AT_CREATION {
        return Err(Errors::InvalidTokenSymbol);
    }
    let property = Property {
        admin,
        property_name: slice_to_vec(property_name.as_bytes()),
        total_tokens,
        available_tokens: total_tokens,
        token_price_usdc,
        mint,
        token_symbol: slice_to_vec(token_symbol.as_bytes()),
        bump,
        dividends_total: 0,
        is_closed: false,
    };
    Ok((property, vec![LedgerAction::MintUnits { amount: total_tokens }]))
}

} // verus!

verus! {

/// The outcome of the administrator issuing `amount` more units.
pub open spec fn spec_mint_additional(p: PropertyModel, caller: Seq<u8>, amount: u64) -> Result<
    PropertyModel,
    Errors,
> {
    if caller != p.admin {
        Err(Errors::Unauthorized)
    } else if p.total_tokens + amount > u64::MAX {
        Err(Errors::OverflowError)
    } else {
        Ok(
            PropertyModel {
                total_tokens: (p.total_tokens + amount) as u64,
                available_tokens: (p.available_tokens + amount) as u64,
                ..p
            },
        )
    }
}

/// Issues `amount` new units into the vault; only the administrator may.
pub fn mint_additional_tokens(caller: &Identity, property: &mut Property, amount: u64) -> (r: Result<
    Vec<LedgerAction>,
    Errors,
>)
    requires
        old(property).wf(),
    ensures
        final(property).wf(),
        match spec_mint_additional(old(property)@, caller@, amount) {
            Ok(m) => r matches Ok(actions) && final(property)@ == m && actions@ == seq![
                LedgerAction::MintUnits { amount },
            ],
            Err(e) => r == Err::<Vec<LedgerAction>, Errors>(e) && final(property)@ == old(property)@,
        },
{
    if !caller.same_as(&property.admin) {
        return Err(Errors::Unauthorized);
    }
    let total = match property.total_tokens.checked_add(amount) {
        Some(t) => t,
        None => return Err(Errors::OverflowError),
    };
    let available = match property.available_tokens.checked_add(amount) {
        Some(a) => a,
        None => return Err(Errors::OverflowError),
    };
    property.total_tokens = total;
    property.available_tokens = available;
    Ok(vec![LedgerAction::MintUnits { amount }])
}

/// The outcome of renaming a property.
pub open spec fn spec_update_property(p: PropertyModel, name: Seq<u8>, symbol: Seq<u8>) -> Result<
    PropertyModel,
    Errors,
> {
    if !valid_name(name) {
        Err(Errors::InvalidPropertyName)
    } else if !valid_symbol(symbol, MAX_SYMBOL_LEN_AT_UPDATE) {
        Err(Errors::InvalidTokenSymbol)
    } else {
        Ok(PropertyModel { name, symbol, ..p })
    }
}

/// Replaces the name and the token symbol; supply and price stay as they are.
pub fn update_property(property: &mut Property, property_name: &str, token_symbol: &str) -> (r:
    Result<(), Errors>)
    ensures
        old(property).wf() ==> final(property).wf(),
        match spec_update_property(
            old(property)@,
            property_name.spec_bytes(),
            token_symbol.spec_bytes(),
        ) {
            Ok(m) => r is Ok && final(property)@ == m,
            Err(e) => r == Err::<(), Errors>(e) && final(property)@ == old(property)@,
        },
{
    let name_len = property_name.as_bytes().len();
    if name_len == 0 || name_len > MAX_NAME_LEN {
        return Err(Errors::InvalidPropertyName);
    }
    let symbol_len = token_symbol.as_bytes().len();
    if symbol_len == 0 || symbol_len > MAX_SYMBOL_LEN_AT_UPDATE {
        return Err(Errors::InvalidTokenSymbol);
    }
    property.property_name = slice_to_vec(property_name.as_bytes());
    property.token_symbol = slice_to_vec(token_symbol.as_bytes());
    Ok(())
}

/// The outcome of closing a property.
pub open spec fn spec_close_property(p: PropertyModel, caller: Seq<u8>) -> Result<
    PropertyModel,
    Errors,
> {
    if p.is_closed {
        Err(Errors::PropertyClosed)
    } else if caller != p.admin {
        Err(Errors::Unauthorized)
    } else {
        Ok(PropertyModel { is_closed: true, ..p })
    }
}

/// Closes a property: the units still in the vault are burnt and the record is
/// marked closed, after which the host deletes it and refunds its deposit to
/// the administrator.
pub fn close_property(caller: &Identity, property: &mut Property) -> (r: Result<
    Vec<LedgerAction>,
    Errors,
>)
    ensures
        old(property).wf() ==> final(property).wf(),
        match spec_close_property(old(property)@, caller@) {
            Ok(m) => r matches Ok(actions) && final(property)@ == m && actions@ == seq![
                LedgerAction::BurnUnits { amount: old(property).available_tokens },
            ],
            Err(e) => r == Err::<Vec<LedgerAction>, Errors>(e) && final(property)@ == old(property)@,
        },
{
    if property.is_closed {
        return Err(Errors::PropertyClosed);
    }
    if !caller.same_as(&property.admin) {
        return Err(Errors::Unauthorized);
    }
    property.is_closed = true;
    Ok(vec![LedgerAction::BurnUnits { amount: property.available_tokens }])
}

} // verus!
