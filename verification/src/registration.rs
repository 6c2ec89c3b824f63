//! Registration of tokens: the checks on a new token and the names derived
//! for it from a hash of its identity and the registration time.
use vstd::prelude::*;
use vstd::string::*;
use vstd::utf8::{encode_utf8, is_ascii_chars, is_ascii_chars_encode_utf8};
use crate::address::{is_valid_xrpl_address, validate_xrpl_address};
use crate::bridge::{assert_bridge_active, string_views, BridgeConfig, BridgeState, TransactionResult};
use crate::operations::{same_queue, takes_ticket_for, ticketed_operation_error, OperationQueue, OperationType};
use crate::currency::{
    convert_currency_to_xrpl_hexadecimal, is_valid_xrpl_currency, lemma_hex_currency_is_valid,
    string_from_ascii, validate_xrpl_currency, xrpl_hex_currency,
};
use crate::error::ContractError;
use crate::hash::{decimal_ascii, hex_lower, lemma_decimal_ascii_len, push_decimal, push_hex_lower, sha256, sha256_digest};
use crate::token::{
    is_valid_cosmos_denom, is_valid_sending_precision, validate_cosmos_denom,
    validate_cosmos_token_decimals, validate_sending_precision, CosmosToken, TokenState, XRPLToken,
    COSMOS_CURRENCY_PREFIX, MAX_COSMOS_TOKEN_DECIMALS, XRPL_DENOM_PREFIX, XRPL_TOKENS_DECIMALS, XRP_SUBUNIT,
};

verus! {

/// Number of hexadecimal digits of the hash kept in derived names.
pub const HASH_PREFIX_LENGTH: usize = 10;

/// ASCII bytes read as characters.
pub open spec fn ascii_text(bytes: Seq<u8>) -> Seq<char> {
    Seq::new(bytes.len(), |i: int| bytes[i] as char)
}

/// The first ten hexadecimal digits of the SHA-256 of `input`.
pub open spec fn hash_prefix(input: Seq<u8>) -> Seq<char> {
    ascii_text(hex_lower(sha256_digest(input)).subrange(0, 10))
}

/// What is hashed to name a Cosmos token on XRPL: its denom, decimals and the
/// registration time, written one after the other.
pub open spec fn cosmos_token_hash_input(denom: Seq<char>, decimals: u32, timestamp: u64) -> Seq<u8> {
    encode_utf8(denom) + decimal_ascii(decimals as nat) + decimal_ascii(timestamp as nat)
}

/// The XRPL currency of a Cosmos token: the hexadecimal XRPL code of
/// `cosmos` followed by the hash prefix.
pub open spec fn cosmos_token_currency(denom: Seq<char>, decimals: u32, timestamp: u64) -> Seq<char> {
    xrpl_hex_currency(
        encode_utf8(
            COSMOS_CURRENCY_PREFIX@ + hash_prefix(cosmos_token_hash_input(denom, decimals, timestamp)),
        ),
    )
}

/// Builds the hash prefix of `input` as a string.
fn hash_prefix_string(input: &Vec<u8>) -> (res: String)
    ensures
        res@ == hash_prefix(input@),
        res@.len() == 10,
        is_ascii_chars(res@),
{
    let digest = sha256(input.as_slice());
    let mut hex: Vec<u8> = Vec::new();
    push_hex_lower(&mut hex, digest.as_slice(), 5);
    proof {
        let h = hex_lower(digest@);
        let h5 = hex_lower(digest@.subrange(0, 5));
        assert(h.subrange(0, 10) =~= h5) by {
            assert forall|j: int| 0 <= j < 10 implies #[trigger] h[j] == h5[j] by {
                assert(j / 2 < 5);
            }
        }
        assert forall|j: int| 0 <= j < hex@.len() implies hex@[j] < 128 by {
            assert(j / 2 < 5);
        }
    }
    let res = string_from_ascii(hex);
    proof {
        assert(res@ =~= hash_prefix(input@));
        assert forall|j: int| 0 <= j < res@.len() implies '\0' <= #[trigger] res@[j] <= '\u{7f}' by {
            assert(hex@[j] < 128);
        }
    }
    res
}

/// Derives the XRPL currency of a Cosmos token from its denom, decimals and
/// the registration time. The result is always a valid XRPL currency code.
pub fn cosmos_token_xrpl_currency(denom: &str, decimals: u32, timestamp: u64) -> (res: String)
    requires
        encode_utf8(denom@).len() + 40 <= usize::MAX,
    ensures
        res@ == cosmos_token_currency(denom@, decimals, timestamp),
        is_valid_xrpl_currency(res@),
{
    let mut input: Vec<u8> = Vec::new();
    let bytes = denom.as_bytes();
    let mut i: usize = 0;
    while i < bytes.len()
        invariant
            i <= bytes@.len(),
            bytes@ == encode_utf8(denom@),
            input@ == bytes@.subrange(0, i as int),
        decreases bytes@.len() - i,
    {
        input.push(bytes[i]);
        i = i + 1;
    }
    proof {
        lemma_decimal_ascii_len(decimals as nat);
        lemma_decimal_ascii_len(timestamp as nat);
    }
    push_decimal(&mut input, decimals as u64);
    push_decimal(&mut input, timestamp);
    assert(input@ =~= cosmos_token_hash_input(denom@, decimals, timestamp));
    let prefix = hash_prefix_string(&input);
    let name = COSMOS_CURRENCY_PREFIX.to_owned().concat(prefix.as_str());
    proof {
        reveal_strlit("cosmos");
        assert(is_ascii_chars(name@)) by {
            assert forall|j: int| 0 <= j < name@.len() implies '\0' <= #[trigger] name@[j]
                <= '\u{7f}' by {
                if j >= 6 {
                    assert(name@[j] == prefix@[j - 6]);
                }
            }
        }
        is_ascii_chars_encode_utf8(name@);
        assert(name@.len() == 16);
    }
    let res = convert_currency_to_xrpl_hexadecimal(name);
    proof {
        assert(encode_utf8(name@)[0] == name@[0] as u8);
        lemma_hex_currency_is_valid(encode_utf8(name@));
    }
    res
}

/// `s` with its lowercase ASCII letters made uppercase.
pub open spec fn ascii_uppercase(s: Seq<char>) -> Seq<char> {
    Seq::new(
        s.len(),
        |i: int|
            if 'a' <= s[i] <= 'z' {
                (s[i] as int - 32) as char
            } else {
                s[i]
            },
    )
}

/// Uppercases an ASCII string.
fn to_ascii_uppercase(s: &String) -> (res: String)
    requires
        is_ascii_chars(s@),
    ensures
        res@ == ascii_uppercase(s@),
{
    let n = s.as_str().unicode_len();
    let mut out: Vec<u8> = Vec::new();
    let mut i: usize = 0;
    while i < n
        invariant
            i <= n,
            n == s@.len(),
            is_ascii_chars(s@),
            out@.len() == i,
            forall|j: int| 0 <= j < i ==> (#[trigger] out@[j]) < 128,
            forall|j: int| 0 <= j < i ==> (#[trigger] out@[j]) as char == ascii_uppercase(s@)[j],
        decreases n - i,
    {
        let c = s.as_str().get_char(i);
        let b = c as u8;
        assert(b as char == c);
        if 97 <= b && b <= 122 {
            out.push(b - 32);
        } else {
            out.push(b);
        }
        i = i + 1;
    }
    let res = string_from_ascii(out);
    assert(res@ =~= ascii_uppercase(s@));
    res
}

/// What is hashed to name an XRPL token on the Cosmos side: its issuer,
/// currency and the registration time, written one after the other.
pub open spec fn xrpl_token_hash_input(issuer: Seq<char>, currency: Seq<char>, timestamp: u64) -> Seq<u8> {
    encode_utf8(issuer) + encode_utf8(currency) + decimal_ascii(timestamp as nat)
}

/// The subdenom of an XRPL token on the Cosmos side: `xrpl` followed by the
/// hash prefix, in uppercase.
pub open spec fn xrpl_token_subdenom_of(issuer: Seq<char>, currency: Seq<char>, timestamp: u64) -> Seq<char> {
    ascii_uppercase(XRPL_DENOM_PREFIX@ + hash_prefix(xrpl_token_hash_input(issuer, currency, timestamp)))
}

/// Derives the Cosmos subdenom of an XRPL token from its issuer, currency and
/// the registration time.
pub fn xrpl_token_subdenom(issuer: &str, currency: &str, timestamp: u64) -> (res: String)
    requires
        encode_utf8(issuer@).len() + encode_utf8(currency@).len() + 20 <= usize::MAX,
    ensures
        res@ == xrpl_token_subdenom_of(issuer@, currency@, timestamp),
{
    let mut input: Vec<u8> = Vec::new();
    let ib = issuer.as_bytes();
    let cb = currency.as_bytes();
    let mut i: usize = 0;
    while i < ib.len()
        invariant
            i <= ib@.len(),
            ib@ == encode_utf8(issuer@),
            input@ == ib@.subrange(0, i as int),
        decreases ib@.len() - i,
    {
        input.push(ib[i]);
        i = i + 1;
    }
    let mut j: usize = 0;
    while j < cb.len()
        invariant
            j <= cb@.len(),
            cb@ == encode_utf8(currency@),
            ib@ == encode_utf8(issuer@),
            input@ == ib@ + cb@.subrange(0, j as int),
        decreases cb@.len() - j,
    {
        input.push(cb[j]);
        assert(input@ =~= ib@ + cb@.subrange(0, j + 1));
        j = j + 1;
    }
    proof {
        lemma_decimal_ascii_len(timestamp as nat);
    }
    push_decimal(&mut input, timestamp);
    assert(input@ =~= xrpl_token_hash_input(issuer@, currency@, timestamp));
    let prefix = hash_prefix_string(&input);
    let subunit = XRPL_DENOM_PREFIX.to_owned().concat(prefix.as_str());
    proof {
        reveal_strlit("xrpl");
        assert forall|k: int| 0 <= k < subunit@.len() implies '\0' <= #[trigger] subunit@[k]
            <= '\u{7f}' by {
            if k >= 4 {
                assert(subunit@[k] == prefix@[k - 4]);
            }
        }
    }
    to_ascii_uppercase(&subunit)
}

/// Checks a Cosmos token registration, in order: an active bridge, decimals at most
/// `MAX_COSMOS_TOKEN_DECIMALS`, a valid sending precision, a denom not yet
/// registered and matching the Cosmos SDK's denom format; then builds the
/// token, enabled at once, with its XRPL currency derived from the hash. The
/// caller tells whether the denom is already registered and which XRPL
/// currencies registered tokens use: a derived currency already in use is a
/// registration failure.
pub fn register_cosmos_token(
    bridge_state: BridgeState,
    denom: String,
    decimals: u32,
    sending_precision: i32,
    max_holding_amount: u128,
    bridging_fee: u128,
    timestamp: u64,
    denom_already_registered: bool,
    xrpl_currencies_in_use: &Vec<String>,
) -> (res: Result<CosmosToken, ContractError>)
    requires
        encode_utf8(denom@).len() + 40 <= usize::MAX,
    ensures
        res is Ok <==> {
            &&& bridge_state == BridgeState::Active
            &&& decimals <= MAX_COSMOS_TOKEN_DECIMALS
            &&& is_valid_sending_precision(sending_precision, decimals)
            &&& !denom_already_registered
            &&& is_valid_cosmos_denom(denom@)
            &&& !string_views(xrpl_currencies_in_use@).contains(
                cosmos_token_currency(denom@, decimals, timestamp),
            )
        },
        res matches Err(e) ==> {
            if bridge_state != BridgeState::Active {
                e == (ContractError::BridgeHalted {  })
            } else if decimals > MAX_COSMOS_TOKEN_DECIMALS {
                e == (ContractError::InvalidDecimals {  })
            } else if !is_valid_sending_precision(sending_precision, decimals) {
                e == (ContractError::InvalidSendingPrecision {  })
            } else if denom_already_registered {
                e matches ContractError::CosmosTokenAlreadyRegistered { denom: d } && d@ == denom@
            } else if !is_valid_cosmos_denom(denom@) {
                e == (ContractError::InvalidDenom {  })
            } else {
                e == (ContractError::RegistrationFailure {  })
            }
        },
        res matches Ok(t) ==> {
            &&& t.denom@ == denom@
            &&& t.decimals == decimals
            &&& t.xrpl_currency@ == cosmos_token_currency(denom@, decimals, timestamp)
            &&& is_valid_xrpl_currency(t.xrpl_currency@)
            &&& t.sending_precision == sending_precision
            &&& t.max_holding_amount == max_holding_amount
            &&& t.state == TokenState::Enabled
            &&& t.bridging_fee == bridging_fee
        },
{
    assert_bridge_active(bridge_state)?;
    validate_cosmos_token_decimals(decimals)?;
    validate_sending_precision(sending_precision, decimals)?;
    if denom_already_registered {
        return Err(ContractError::CosmosTokenAlreadyRegistered { denom });
    }
    validate_cosmos_denom(denom.as_str())?;
    let xrpl_currency = cosmos_token_xrpl_currency(denom.as_str(), decimals, timestamp);
    validate_xrpl_currency(xrpl_currency.as_str())?;
    if contains_string(xrpl_currencies_in_use, &xrpl_currency) {
        return Err(ContractError::RegistrationFailure {  });
    }
    Ok(
        CosmosToken {
            denom,
            decimals,
            xrpl_currency,
            sending_precision,
            max_holding_amount,
            state: TokenState::Enabled,
            bridging_fee,
        },
    )
}

/// Whether `s` occurs in `list`.
pub fn contains_string(list: &Vec<String>, s: &String) -> (r: bool)
    ensures
        r == string_views(list@).contains(s@),
{
    let mut i: usize = 0;
    while i < list.len()
        invariant
            i <= list@.len(),
            forall|j: int| 0 <= j < i ==> list@[j]@ != s@,
        decreases list@.len() - i,
    {
        if list[i] == *s {
            assert(string_views(list@)[i as int] == s@);
            return true;
        }
        i = i + 1;
    }
    assert(!string_views(list@).contains(s@)) by {
        if string_views(list@).contains(s@) {
            let k = choose|k: int| 0 <= k < string_views(list@).len() && string_views(list@)[k] == s@;
            assert(list@[k]@ == s@);
        }
    }
    false
}

/// The denom the token factory gives to `subdenom`:
/// `factory/<token factory>/<subdenom>`.
pub open spec fn full_denom_of(token_factory_addr: Seq<char>, subdenom: Seq<char>) -> Seq<char> {
    XRP_SUBUNIT@ + seq!['/'] + token_factory_addr + seq!['/'] + subdenom
}

/// Builds the token factory denom of `subdenom`.
pub fn full_denom(token_factory_addr: &str, subdenom: &str) -> (res: String)
    ensures
        res@ == full_denom_of(token_factory_addr@, subdenom@),
{
    proof {
        reveal_strlit("/");
    }
    let res = XRP_SUBUNIT.to_owned().concat("/").concat(token_factory_addr).concat("/").concat(
        subdenom,
    );
    assert(res@ =~= full_denom_of(token_factory_addr@, subdenom@));
    res
}

/// A registered XRPL token, the subdenom the token factory creates for it,
/// and the ticket of its trust set operation.
pub struct XRPLTokenRegistration {
    pub token: XRPLToken,
    pub subdenom: String,
    pub ticket: u64,
}

/// The trust set operation that opens the bridge's trust line for a token.
pub open spec fn trust_set_operation(issuer: String, currency: String, trust_set_limit_amount: u128) -> OperationType {
    OperationType::TrustSet { issuer, currency, trust_set_limit_amount }
}

/// Registers an XRPL token, checking in order: the issuer is a valid XRPL
/// address that is not prohibited, the currency is a valid XRPL currency, the
/// sending precision is valid for 15 decimals, the token is not yet
/// registered, and the denom derived for it is not a registered Cosmos
/// token's (a registration failure). The token starts in the processing state;
/// the first available ticket goes to the trust set operation that XRPL must
/// accept to enable it. Nothing changes when the registration is refused,
/// also for want of a ticket.
pub fn register_xrpl_token<Sig>(
    issuer: String,
    currency: String,
    sending_precision: i32,
    max_holding_amount: u128,
    bridging_fee: u128,
    timestamp: u64,
    config: &BridgeConfig,
    prohibited_xrpl_addresses: &Vec<String>,
    token_already_registered: bool,
    registered_cosmos_denoms: &Vec<String>,
    queue: &mut OperationQueue<Sig>,
    operation_id: String,
) -> (res: Result<XRPLTokenRegistration, ContractError>)
    requires
        encode_utf8(issuer@).len() + encode_utf8(currency@).len() + 20 <= usize::MAX,
    ensures
        ({
            let subdenom = xrpl_token_subdenom_of(issuer@, currency@, timestamp);
            let denom = full_denom_of(config.token_factory_addr@, subdenom);
            let ticket_error = ticketed_operation_error(
                old(queue).available_tickets@,
                old(queue).pending_operations@,
            );
            let acceptable = {
                &&& is_valid_xrpl_address(issuer@)
                &&& !string_views(prohibited_xrpl_addresses@).contains(issuer@)
                &&& is_valid_xrpl_currency(currency@)
                &&& is_valid_sending_precision(sending_precision, XRPL_TOKENS_DECIMALS)
                &&& !token_already_registered
                &&& !string_views(registered_cosmos_denoms@).contains(denom)
            };
            &&& res is Ok <==> acceptable && ticket_error is None
            &&& res matches Ok(r) ==> {
                &&& r.token.issuer == issuer
                &&& r.token.currency == currency
                &&& r.token.cosmos_denom@ == denom
                &&& r.token.sending_precision == sending_precision
                &&& r.token.max_holding_amount == max_holding_amount
                &&& r.token.state == TokenState::Processing
                &&& r.token.bridging_fee == bridging_fee
                &&& r.subdenom@ == subdenom
                &&& r.ticket == old(queue).available_tickets@[0]
                &&& takes_ticket_for(
                    *old(queue),
                    *final(queue),
                    operation_id@,
                    trust_set_operation(issuer, currency, config.trust_set_limit_amount),
                    config.xrpl_base_fee,
                )
            }
            &&& res is Err ==> same_queue(*old(queue), *final(queue))
            &&& res matches Err(e) ==> {
                if !is_valid_xrpl_address(issuer@) {
                    e matches ContractError::InvalidXRPLAddress { address: a } && a@ == issuer@
                } else if string_views(prohibited_xrpl_addresses@).contains(issuer@) {
                    e == (ContractError::ProhibitedAddress {  })
                } else if !is_valid_xrpl_currency(currency@) {
                    e == (ContractError::InvalidXRPLCurrency {  })
                } else if !is_valid_sending_precision(sending_precision, XRPL_TOKENS_DECIMALS) {
                    e == (ContractError::InvalidSendingPrecision {  })
                } else if token_already_registered {
                    e matches ContractError::XRPLTokenAlreadyRegistered { issuer: i, currency: c } && i@
                        == issuer@ && c@ == currency@
                } else if string_views(registered_cosmos_denoms@).contains(denom) {
                    e == (ContractError::RegistrationFailure {  })
                } else {
                    ticket_error == Some(e)
                }
            }
        }),
{
    validate_xrpl_address(prohibited_xrpl_addresses, &issuer)?;
    validate_xrpl_currency(currency.as_str())?;
    validate_sending_precision(sending_precision, XRPL_TOKENS_DECIMALS)?;
    if token_already_registered {
        return Err(ContractError::XRPLTokenAlreadyRegistered { issuer, currency });
    }
    let subdenom = xrpl_token_subdenom(issuer.as_str(), currency.as_str(), timestamp);
    let denom = full_denom(config.token_factory_addr.as_str(), subdenom.as_str());
    if contains_string(registered_cosmos_denoms, &denom) {
        return Err(ContractError::RegistrationFailure {  });
    }
    let ticket = queue.create_ticketed_operation(
        operation_id,
        OperationType::TrustSet {
            issuer: issuer.clone(),
            currency: currency.clone(),
            trust_set_limit_amount: config.trust_set_limit_amount,
        },
        config.xrpl_base_fee,
    )?;
    let token = pending_xrpl_token(
        issuer,
        currency,
        denom,
        sending_precision,
        max_holding_amount,
        bridging_fee,
    );
    Ok(XRPLTokenRegistration { token, subdenom, ticket })
}

/// A newly registered XRPL token: it stays in processing until XRPL accepts
/// or refuses the bridge's trust line for it.
pub fn pending_xrpl_token(
    issuer: String,
    currency: String,
    cosmos_denom: String,
    sending_precision: i32,
    max_holding_amount: u128,
    bridging_fee: u128,
) -> (token: XRPLToken)
    ensures
        token.issuer == issuer,
        token.currency == currency,
        token.cosmos_denom == cosmos_denom,
        token.sending_precision == sending_precision,
        token.max_holding_amount == max_holding_amount,
        token.state == TokenState::Processing,
        token.bridging_fee == bridging_fee,
{
    XRPLToken {
        issuer,
        currency,
        cosmos_denom,
        sending_precision,
        max_holding_amount,
        state: TokenState::Processing,
        bridging_fee,
    }
}

/// Completes a token's trust set operation with the result XRPL reported
/// for it (or an invalid one when the operation is cancelled): an accepted
/// trust line enables the token; otherwise it is inactive, waiting for its
/// registration to be recovered. Only the state changes.
pub fn complete_trust_set(token: &mut XRPLToken, transaction_result: TransactionResult)
    ensures
        final(token).state == if transaction_result == TransactionResult::Accepted {
            TokenState::Enabled
        } else {
            TokenState::Inactive
        },
        final(token).issuer == old(token).issuer,
        final(token).currency == old(token).currency,
        final(token).cosmos_denom == old(token).cosmos_denom,
        final(token).sending_precision == old(token).sending_precision,
        final(token).max_holding_amount == old(token).max_holding_amount,
        final(token).bridging_fee == old(token).bridging_fee,
{
    token.state = match transaction_result {
        TransactionResult::Accepted => TokenState::Enabled,
        _ => TokenState::Inactive,
    };
}

/// Puts an XRPL token whose trust line was refused back into processing, to
/// try registering it again: only an inactive token can be recovered, and the
/// first available ticket goes to a new trust set operation for it. Nothing
/// changes when it is refused.
pub fn recover_xrpl_token_registration<Sig>(
    token: &mut XRPLToken,
    config: &BridgeConfig,
    queue: &mut OperationQueue<Sig>,
    operation_id: String,
) -> (res: Result<u64, ContractError>)
    ensures
        ({
            let ticket_error = ticketed_operation_error(
                old(queue).available_tickets@,
                old(queue).pending_operations@,
            );
            &&& res is Ok <==> old(token).state == TokenState::Inactive && ticket_error is None
            &&& res matches Err(e) ==> if old(token).state != TokenState::Inactive {
                e == (ContractError::XRPLTokenNotInactive {  })
            } else {
                ticket_error == Some(e)
            }
            &&& res matches Ok(t) ==> {
                &&& t == old(queue).available_tickets@[0]
                &&& final(token).state == TokenState::Processing
                &&& takes_ticket_for(
                    *old(queue),
                    *final(queue),
                    operation_id@,
                    trust_set_operation(
                        old(token).issuer,
                        old(token).currency,
                        config.trust_set_limit_amount,
                    ),
                    config.xrpl_base_fee,
                )
            }
            &&& res is Err ==> final(token).state == old(token).state && same_queue(
                *old(queue),
                *final(queue),
            )
            &&& final(token).issuer == old(token).issuer
            &&& final(token).currency == old(token).currency
            &&& final(token).cosmos_denom == old(token).cosmos_denom
            &&& final(token).sending_precision == old(token).sending_precision
            &&& final(token).max_holding_amount == old(token).max_holding_amount
            &&& final(token).bridging_fee == old(token).bridging_fee
        }),
{
    if token.state != TokenState::Inactive {
        return Err(ContractError::XRPLTokenNotInactive {  });
    }
    let ticket = queue.create_ticketed_operation(
        operation_id,
        OperationType::TrustSet {
            issuer: token.issuer.clone(),
            currency: token.currency.clone(),
            trust_set_limit_amount: config.trust_set_limit_amount,
        },
        config.xrpl_base_fee,
    )?;
    token.state = TokenState::Processing;
    Ok(ticket)
}

} // verus!
