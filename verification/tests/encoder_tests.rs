use contract_verify::artifact::{Abi, ArtifactRecord, ConstructorAbi, ContractQuery, Param};
use contract_verify::encoder::{constructor_calldata, constructor_signature};
use contract_verify::errors::VerifyError;

use ethabi::ethereum_types::U256;
use ethabi::{ParamType, Token};

fn token_constructor_abi() -> Abi {
    Abi {
        constructor: Some(ConstructorAbi {
            inputs: vec![
                Param { name: "supply".to_string(), param_type: "uint256".to_string() },
                Param { name: "label".to_string(), param_type: "string".to_string() },
            ],
        }),
    }
}

#[test]
fn signature_of_two_inputs() {
    let abi = token_constructor_abi();
    let inputs = &abi.constructor.as_ref().unwrap().inputs;
    assert_eq!(constructor_signature(inputs), "constructor(uint256,string)");
}

#[test]
fn signature_of_no_inputs() {
    let inputs: Vec<Param> = vec![];
    assert_eq!(constructor_signature(&inputs), "constructor()");
}

#[test]
fn encoding_round_trips_through_the_same_abi() {
    let abi = token_constructor_abi();
    let args = vec!["100".to_string(), "hello".to_string()];
    let bytes = constructor_calldata(&abi, &args).unwrap().unwrap();

    let decoded = ethabi::decode(&[ParamType::Uint(256), ParamType::String], &bytes).unwrap();
    assert_eq!(decoded, vec![Token::Uint(U256::from(100u64)), Token::String("hello".to_string())]);
}

#[test]
fn encoding_matches_direct_encoding_of_typed_values() {
    let artifacts = vec![ArtifactRecord {
        qualified_name: "t.sol:Token".to_string(),
        abi: Some(token_constructor_abi()),
        bytecode: Some("6080".to_string()),
    }];
    let q = ContractQuery::ByName { name: "Token".to_string() };
    let idx = contract_verify::artifact::locate_artifact(&q, &artifacts).unwrap();
    let abi = artifacts[idx].abi.as_ref().unwrap();

    let args = vec!["100".to_string(), "hello".to_string()];
    let bytes = constructor_calldata(abi, &args).unwrap().unwrap();

    let direct =
        ethabi::encode(&[Token::Uint(U256::from(100u64)), Token::String("hello".to_string())]);
    assert_eq!(bytes, direct);
}

#[test]
fn zero_input_constructor_encodes_to_empty_calldata() {
    let abi = Abi { constructor: Some(ConstructorAbi { inputs: vec![] }) };
    let args: Vec<String> = vec![];
    let bytes = constructor_calldata(&abi, &args).unwrap().unwrap();
    assert!(bytes.is_empty());
}

#[test]
fn no_constructor_and_no_args_needs_no_calldata() {
    let abi = Abi { constructor: None };
    let args: Vec<String> = vec![];
    assert!(constructor_calldata(&abi, &args).unwrap().is_none());
}

#[test]
fn one_arg_for_a_no_constructor_abi_is_rejected() {
    let abi = Abi { constructor: None };
    let args = vec!["100".to_string()];
    assert!(matches!(
        constructor_calldata(&abi, &args),
        Err(VerifyError::UnexpectedConstructorArgs)
    ));
}

#[test]
fn many_args_for_a_no_constructor_abi_are_rejected() {
    let abi = Abi { constructor: None };
    let args = vec!["1".to_string(), "2".to_string(), "3".to_string()];
    assert!(matches!(
        constructor_calldata(&abi, &args),
        Err(VerifyError::UnexpectedConstructorArgs)
    ));
}

#[test]
fn arity_mismatch_is_an_encoding_error_without_an_index() {
    let abi = token_constructor_abi();
    let args = vec!["100".to_string()];
    assert!(matches!(
        constructor_calldata(&abi, &args),
        Err(VerifyError::ArgumentEncodingError { index: None, .. })
    ));
}

#[test]
fn uncoercible_argument_is_an_encoding_error_with_its_index() {
    let abi = token_constructor_abi();
    let args = vec!["not-a-number".to_string(), "hello".to_string()];
    assert!(matches!(
        constructor_calldata(&abi, &args),
        Err(VerifyError::ArgumentEncodingError { index: Some(0), .. })
    ));
}

#[test]
fn bracket_only_type_is_rejected_not_aborted() {
    for bad in ["]", "7]", "(7])", "][]", "(uint256,string)"] {
        let abi = Abi {
            constructor: Some(ConstructorAbi {
                inputs: vec![Param { name: "x".to_string(), param_type: bad.to_string() }],
            }),
        };
        let args = vec!["1".to_string()];
        assert!(matches!(
            constructor_calldata(&abi, &args),
            Err(VerifyError::ArgumentEncodingError { index: Some(0), .. })
        ));
    }
}

#[test]
fn array_type_still_encodes_and_round_trips() {
    let abi = Abi {
        constructor: Some(ConstructorAbi {
            inputs: vec![Param { name: "xs".to_string(), param_type: "uint256[2]".to_string() }],
        }),
    };
    let args = vec!["[7,9]".to_string()];
    let bytes = constructor_calldata(&abi, &args).unwrap().unwrap();
    let decoded =
        ethabi::decode(&[ParamType::FixedArray(Box::new(ParamType::Uint(256)), 2)], &bytes)
            .unwrap();
    assert_eq!(
        decoded,
        vec![Token::FixedArray(vec![
            Token::Uint(U256::from(7u64)),
            Token::Uint(U256::from(9u64))
        ])]
    );
}

#[test]
fn malformed_parameter_type_is_an_encoding_error_with_its_index() {
    let abi = Abi {
        constructor: Some(ConstructorAbi {
            inputs: vec![Param { name: "x".to_string(), param_type: "uint2x".to_string() }],
        }),
    };
    let args = vec!["1".to_string()];
    assert!(matches!(
        constructor_calldata(&abi, &args),
        Err(VerifyError::ArgumentEncodingError { index: Some(0), .. })
    ));
}
