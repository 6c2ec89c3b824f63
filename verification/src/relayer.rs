//! The relayer set: who relays XRPL evidence to the bridge, and how many of
//! them must agree.
use vstd::prelude::*;
use vstd::string::*;
use crate::address::{is_valid_xrpl_address, validate_xrpl_address};
use crate::bridge::string_views;
use crate::bridge::MAX_RELAYERS;
use crate::error::ContractError;

verus! {

/// A relayer: its account on the Cosmos side, its XRPL account and the
/// public key it signs XRPL transactions with.
#[derive(Debug, Clone)]
pub struct Relayer {
    pub cosmos_address: String,
    pub xrpl_address: String,
    pub xrpl_pub_key: String,
}

/// Relayer `i` shares its Cosmos address, XRPL address or public key with an
/// earlier relayer.
pub open spec fn is_duplicated_relayer(relayers: Seq<Relayer>, i: int) -> bool {
    exists|j: int|
        0 <= j < i && {
            ||| (#[trigger] relayers[j]).cosmos_address@ == relayers[i].cosmos_address@
            ||| relayers[j].xrpl_address@ == relayers[i].xrpl_address@
            ||| relayers[j].xrpl_pub_key@ == relayers[i].xrpl_pub_key@
        }
}

/// Relayer `i` is acceptable: its Cosmos address was accepted by the chain
/// (`cosmos_address_errors[i]` is `None`), its XRPL address is well formed
/// and not prohibited, and it duplicates no earlier relayer.
pub open spec fn is_acceptable_relayer(
    relayers: Seq<Relayer>,
    cosmos_address_errors: Seq<Option<String>>,
    prohibited: Seq<Seq<char>>,
    i: int,
) -> bool {
    &&& cosmos_address_errors[i] is None
    &&& is_valid_xrpl_address(relayers[i].xrpl_address@)
    &&& !prohibited.contains(relayers[i].xrpl_address@)
    &&& !is_duplicated_relayer(relayers, i)
}

/// `e` is the error reported for an unacceptable relayer `i`: the chain's
/// error on its Cosmos address, else its malformed XRPL address, else its
/// prohibited XRPL address, else the duplication.
pub open spec fn is_relayer_error(
    e: ContractError,
    relayers: Seq<Relayer>,
    cosmos_address_errors: Seq<Option<String>>,
    prohibited: Seq<Seq<char>>,
    i: int,
) -> bool {
    if cosmos_address_errors[i] is Some {
        e matches ContractError::Std(m) && m@ == cosmos_address_errors[i]->Some_0@
    } else if !is_valid_xrpl_address(relayers[i].xrpl_address@) {
        e matches ContractError::InvalidXRPLAddress { address: a } && a@ == relayers[i].xrpl_address@
    } else if prohibited.contains(relayers[i].xrpl_address@) {
        e == (ContractError::ProhibitedAddress {  })
    } else {
        e == (ContractError::DuplicatedRelayer {  })
    }
}

/// The evidence threshold is between one and the number of relayers.
pub open spec fn is_valid_evidence_threshold(relayers_len: int, evidence_threshold: u32) -> bool {
    0 < evidence_threshold <= relayers_len
}

/// A valid relayer set: a threshold between one and the number of relayers,
/// at most `MAX_RELAYERS` relayers, each acceptable.
pub open spec fn is_valid_relayer_set(
    relayers: Seq<Relayer>,
    cosmos_address_errors: Seq<Option<String>>,
    prohibited: Seq<Seq<char>>,
    evidence_threshold: u32,
) -> bool {
    &&& is_valid_evidence_threshold(relayers.len() as int, evidence_threshold)
    &&& relayers.len() <= MAX_RELAYERS
    &&& forall|i: int|
        0 <= i < relayers.len() ==> is_acceptable_relayer(
            relayers,
            cosmos_address_errors,
            prohibited,
            i,
        )
}

/// The error a refused relayer set is reported with: a bad threshold, then
/// too many relayers, then the first unacceptable relayer.
pub open spec fn is_relayer_set_error(
    e: ContractError,
    relayers: Seq<Relayer>,
    cosmos_address_errors: Seq<Option<String>>,
    prohibited: Seq<Seq<char>>,
    evidence_threshold: u32,
) -> bool {
    if !is_valid_evidence_threshold(relayers.len() as int, evidence_threshold) {
        e == (ContractError::InvalidThreshold {  })
    } else if relayers.len() > MAX_RELAYERS {
        e == (ContractError::TooManyRelayers {  })
    } else {
        exists|i: int|
            0 <= i < relayers.len() && (forall|j: int|
                0 <= j < i ==> is_acceptable_relayer(relayers, cosmos_address_errors, prohibited, j))
                && !is_acceptable_relayer(relayers, cosmos_address_errors, prohibited, i)
                && is_relayer_error(e, relayers, cosmos_address_errors, prohibited, i)
    }
}

/// Checks a relayer set with its evidence threshold. The chain's verdict on
/// each relayer's Cosmos address comes in `cosmos_address_errors` (the error
/// message, or `None` when accepted); no relayer may use a prohibited XRPL
/// address.
#[verifier::loop_isolation(false)]
pub fn validate_relayers(
    relayers: &Vec<Relayer>,
    evidence_threshold: u32,
    cosmos_address_errors: &Vec<Option<String>>,
    prohibited_xrpl_addresses: &Vec<String>,
) -> (res: Result<(), ContractError>)
    requires
        cosmos_address_errors@.len() == relayers@.len(),
    ensures
        res is Ok <==> is_valid_relayer_set(
            relayers@,
            cosmos_address_errors@,
            string_views(prohibited_xrpl_addresses@),
            evidence_threshold,
        ),
        res matches Err(e) ==> is_relayer_set_error(
            e,
            relayers@,
            cosmos_address_errors@,
            string_views(prohibited_xrpl_addresses@),
            evidence_threshold,
        ),
{
    let n = relayers.len();
    if evidence_threshold == 0 || evidence_threshold as usize > n {
        return Err(ContractError::InvalidThreshold {  });
    }
    if n > MAX_RELAYERS {
        return Err(ContractError::TooManyRelayers {  });
    }
    let ghost prohibited = string_views(prohibited_xrpl_addresses@);
    assert(prohibited =~= prohibited_xrpl_addresses@.map_values(|s: String| s@));
    let mut i: usize = 0;
    while i < n
        invariant
            i <= n,
            n == relayers@.len(),
            forall|j: int|
                0 <= j < i ==> is_acceptable_relayer(relayers@, cosmos_address_errors@, prohibited, j),
        decreases n - i,
    {
        let r = &relayers[i];
        let address_error = &cosmos_address_errors[i];
        if address_error.is_some() {
            let m = address_error.as_ref().unwrap().clone();
            let e = ContractError::Std(m);
            assert(cosmos_address_errors@[i as int] is Some);
            assert(!is_acceptable_relayer(relayers@, cosmos_address_errors@, prohibited, i as int));
            assert(is_relayer_error(e, relayers@, cosmos_address_errors@, prohibited, i as int));
            return Err(e);
        }
        match validate_xrpl_address(prohibited_xrpl_addresses, &r.xrpl_address) {
            Ok(()) => {},
            Err(e) => {
                assert(cosmos_address_errors@[i as int] is None);
                assert(!is_acceptable_relayer(relayers@, cosmos_address_errors@, prohibited, i as int));
                assert(is_relayer_error(e, relayers@, cosmos_address_errors@, prohibited, i as int));
                return Err(e);
            },
        }
        let mut j: usize = 0;
        while j < i
            invariant
                j <= i,
                i < n,
                n == relayers@.len(),
                forall|k: int|
                    0 <= k < j ==> !({
                        ||| relayers@[k].cosmos_address@ == relayers@[i as int].cosmos_address@
                        ||| relayers@[k].xrpl_address@ == relayers@[i as int].xrpl_address@
                        ||| relayers@[k].xrpl_pub_key@ == relayers@[i as int].xrpl_pub_key@
                    }),
            decreases i - j,
        {
            let other = &relayers[j];
            if other.cosmos_address == r.cosmos_address || other.xrpl_address == r.xrpl_address
                || other.xrpl_pub_key == r.xrpl_pub_key {
                assert(is_duplicated_relayer(relayers@, i as int));
                assert(!is_acceptable_relayer(relayers@, cosmos_address_errors@, prohibited, i as int));
                let e = ContractError::DuplicatedRelayer {  };
                assert(is_relayer_error(e, relayers@, cosmos_address_errors@, prohibited, i as int));
                return Err(e);
            }
            j = j + 1;
        }
        i = i + 1;
    }
    Ok(())
}

/// An accepted relayer set has pairwise distinct relayers: any two of them
/// differ in Cosmos address, in XRPL address and in public key.
pub proof fn lemma_valid_relayer_set_is_distinct(
    relayers: Seq<Relayer>,
    cosmos_address_errors: Seq<Option<String>>,
    prohibited: Seq<Seq<char>>,
    evidence_threshold: u32,
    j: int,
    i: int,
)
    requires
        is_valid_relayer_set(relayers, cosmos_address_errors, prohibited, evidence_threshold),
        0 <= j < i < relayers.len(),
    ensures
        relayers[j].cosmos_address@ != relayers[i].cosmos_address@,
        relayers[j].xrpl_address@ != relayers[i].xrpl_address@,
        relayers[j].xrpl_pub_key@ != relayers[i].xrpl_pub_key@,
{
    assert(is_acceptable_relayer(relayers, cosmos_address_errors, prohibited, i));
    if relayers[j].cosmos_address@ == relayers[i].cosmos_address@
        || relayers[j].xrpl_address@ == relayers[i].xrpl_address@
        || relayers[j].xrpl_pub_key@ == relayers[i].xrpl_pub_key@ {
        assert(is_duplicated_relayer(relayers, i));
    }
}

/// An accepted relayer set holds no relayer on a prohibited XRPL address
/// and none whose Cosmos address the chain refused.
pub proof fn lemma_valid_relayer_set_is_allowed(
    relayers: Seq<Relayer>,
    cosmos_address_errors: Seq<Option<String>>,
    prohibited: Seq<Seq<char>>,
    evidence_threshold: u32,
    i: int,
)
    requires
        is_valid_relayer_set(relayers, cosmos_address_errors, prohibited, evidence_threshold),
        0 <= i < relayers.len(),
    ensures
        !prohibited.contains(relayers[i].xrpl_address@),
        cosmos_address_errors[i] is None,
        0 < evidence_threshold <= relayers.len() <= MAX_RELAYERS,
{
    assert(is_acceptable_relayer(relayers, cosmos_address_errors, prohibited, i));
}

} // verus!
