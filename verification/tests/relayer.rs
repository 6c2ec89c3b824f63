use cw_xrpl::error::ContractError;
use cw_xrpl::relayer::{validate_relayers, Relayer};

fn relayer(cosmos: &str, xrpl: &str, key: &str) -> Relayer {
    Relayer {
        cosmos_address: cosmos.to_string(),
        xrpl_address: xrpl.to_string(),
        xrpl_pub_key: key.to_string(),
    }
}

const A: &str = "rU6K7V3Po4snVhBBaU29sesqs2qTQJWDw1";
const B: &str = "rLUEXYuLiQptky37CqLcm9USQpPiz5rkpD";

#[test]
fn relayer_sets() {
    let set = vec![relayer("orai1a", A, "ka"), relayer("orai1b", B, "kb")];
    validate_relayers(&set, 1, &vec![None, None], &vec![]).unwrap();
    validate_relayers(&set, 2, &vec![None, None], &vec![]).unwrap();
    assert_eq!(
        validate_relayers(&set, 0, &vec![None, None], &vec![]),
        Err(ContractError::InvalidThreshold {})
    );
    assert_eq!(
        validate_relayers(&set, 3, &vec![None, None], &vec![]),
        Err(ContractError::InvalidThreshold {})
    );
    assert_eq!(
        validate_relayers(&set, 1, &vec![None, Some("invalid address".to_string())], &vec![]),
        Err(ContractError::Std("invalid address".to_string()))
    );
    let bad = vec![relayer("orai1a", A, "ka"), relayer("orai1b", "rBad", "kb")];
    assert_eq!(
        validate_relayers(&bad, 1, &vec![None, None], &vec![]),
        Err(ContractError::InvalidXRPLAddress {
            address: "rBad".to_string()
        })
    );
}

#[test]
fn duplicated_relayers() {
    for set in [
        vec![relayer("orai1a", A, "ka"), relayer("orai1a", B, "kb")],
        vec![relayer("orai1a", A, "ka"), relayer("orai1b", A, "kb")],
        vec![relayer("orai1a", A, "ka"), relayer("orai1b", B, "ka")],
    ] {
        assert_eq!(
            validate_relayers(&set, 1, &vec![None, None], &vec![]),
            Err(ContractError::DuplicatedRelayer {})
        );
    }
}

#[test]
fn too_many_relayers() {
    let set: Vec<Relayer> = (0..33).map(|i| relayer(&format!("orai1{i}"), A, &format!("k{i}"))).collect();
    let errors = vec![None; 33];
    assert_eq!(
        validate_relayers(&set, 1, &errors, &vec![]),
        Err(ContractError::TooManyRelayers {})
    );
}

#[test]
fn relayers_on_prohibited_addresses() {
    let genesis = "rHb9CJAWyB4rj91VRWn96DkukG4bwdtyTh";
    let prohibited = vec![genesis.to_string()];
    let set = vec![relayer("orai1a", A, "ka"), relayer("orai1b", genesis, "kb")];
    assert_eq!(
        validate_relayers(&set, 1, &vec![None, None], &prohibited),
        Err(ContractError::ProhibitedAddress {})
    );
    let set = vec![relayer("orai1a", A, "ka"), relayer("orai1b", B, "kb")];
    validate_relayers(&set, 2, &vec![None, None], &prohibited).unwrap();
}
