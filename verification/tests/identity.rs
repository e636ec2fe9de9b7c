use wallet_auth::identity::{
    ClaimData, GenericProviderIdentityRecord, IdentityProvider, IdentityRecord, IdentityRecordBuilder,
    IdentityRecordV2, ProofError, ProofService, ProofServiceError, ReclaimProof, ReclaimProofValidator,
    UserIdentityRecord,
};

fn proof_with(context: &str) -> ReclaimProof {
    ReclaimProof {
        identifier: "0xproof".to_string(),
        claim_data: ClaimData { parameters: "{\"url\":\"https://example.org\"}".to_string(), context: context.to_string() },
        public_data: Some(vec![("plan".to_string(), "free".to_string())]),
    }
}

#[test]
fn a_google_proof_without_email_is_turned_down() {
    let proof = proof_with("{\"extractedParameters\":{\"username\":\"al\"}}");
    let error = IdentityRecordBuilder::build(&IdentityProvider::Google, proof, 5).unwrap_err();
    assert!(matches!(error, ProofServiceError::EmailNotFound));
    let proof = proof_with("{\"extractedParameters\":{\"email\":7}}");
    let error = IdentityRecordBuilder::build(&IdentityProvider::Google, proof, 5).unwrap_err();
    assert!(matches!(error, ProofServiceError::EmailNotFound));
    let proof = proof_with("{}");
    let error = IdentityRecordBuilder::build(&IdentityProvider::Google, proof, 5).unwrap_err();
    assert!(matches!(error, ProofServiceError::EmailNotFound));
}

#[test]
fn an_unknown_provider_gets_a_generic_record() {
    let provider = IdentityProvider::from_name("mastodon".to_string());
    assert!(matches!(provider, IdentityProvider::Other(_)));
    let record = IdentityRecordBuilder::build(&provider, proof_with("this is no json"), 42).unwrap();
    match record {
        IdentityRecord::Generic(record) => {
            assert_eq!(record.proof_identifier, "0xproof");
            assert_eq!(record.provider, "mastodon");
            assert_eq!(record.created_at, 42);
            assert_eq!(record.public_data, Some(vec![("plan".to_string(), "free".to_string())]));
        },
        other => panic!("not a generic record: {:?}", other),
    }
}

#[test]
fn a_google_email_loses_its_quotes_and_its_capitals() {
    let proof = proof_with("{\"extractedParameters\":{\"email\":\"\\\"\\\"Alice@Example.COM\\\"\"}}");
    match IdentityRecordBuilder::build(&IdentityProvider::Google, proof, 9).unwrap() {
        IdentityRecord::Google(record) => {
            assert_eq!(record.email, "alice@example.com");
            assert_eq!(record.provider, "google");
            assert_eq!(record.created_at, 9);
            assert_eq!(record.proof_identifier, "0xproof");
        },
        other => panic!("not a google record: {:?}", other),
    }
    let proof = proof_with("{\"extractedParameters\":{\"email\":\"a\\\"b@C.org\"}}");
    match IdentityRecordBuilder::build(&IdentityProvider::Google, proof, 9).unwrap() {
        IdentityRecord::Google(record) => assert_eq!(record.email, "a\"b@c.org"),
        other => panic!("not a google record: {:?}", other),
    }
    let proof = proof_with("{\"extractedParameters\":{\"email\":\"\\\"\\\"\"}}");
    match IdentityRecordBuilder::build(&IdentityProvider::Google, proof, 9).unwrap() {
        IdentityRecord::Google(record) => assert_eq!(record.email, ""),
        other => panic!("not a google record: {:?}", other),
    }
}

#[test]
fn an_x_record_keeps_the_screen_name() {
    let proof = proof_with("{\"extractedParameters\":{\"screen_name\":\"Al_X\"}}");
    match IdentityRecordBuilder::build(&IdentityProvider::X, proof, 1).unwrap() {
        IdentityRecord::X(record) => {
            assert_eq!(record.nickname, "Al_X");
            assert_eq!(record.provider, "x");
        },
        other => panic!("not an x record: {:?}", other),
    }
    let error = IdentityRecordBuilder::build(&IdentityProvider::X, proof_with("{\"extractedParameters\":{}}"), 1)
        .unwrap_err();
    assert!(matches!(error, ProofServiceError::ScreennameNotFound));
}

#[test]
fn a_github_record_keeps_the_username() {
    let proof = proof_with("{\"extractedParameters\":{\"username\":\"al\"}}");
    match IdentityRecordBuilder::build(&IdentityProvider::Github, proof, 1).unwrap() {
        IdentityRecord::Github(record) => {
            assert_eq!(record.username, "al");
            assert_eq!(record.provider, "github");
        },
        other => panic!("not a github record: {:?}", other),
    }
    let proof = proof_with("{\"extractedParameters\":{\"Username\":\"al\"}}");
    let error = IdentityRecordBuilder::build(&IdentityProvider::Github, proof, 1).unwrap_err();
    assert!(matches!(error, ProofServiceError::UsernameNotFound));
}

#[test]
fn a_linkedin_record_reads_the_capitalised_member() {
    let proof = proof_with("{\"extractedParameters\":{\"Username\":\"Al L\"}}");
    match IdentityRecordBuilder::build(&IdentityProvider::Linkedin, proof, 1).unwrap() {
        IdentityRecord::Linkedin(record) => {
            assert_eq!(record.username, "Al L");
            assert_eq!(record.provider, "linkedin");
        },
        other => panic!("not a linkedin record: {:?}", other),
    }
    let proof = proof_with("{\"extractedParameters\":{\"username\":\"al\"}}");
    let error = IdentityRecordBuilder::build(&IdentityProvider::Linkedin, proof, 1).unwrap_err();
    assert!(matches!(error, ProofServiceError::UsernameNotFound));
}

#[test]
fn a_context_that_is_no_json_is_reported_for_known_providers() {
    let error = IdentityRecordBuilder::build(&IdentityProvider::Github, proof_with("{oops"), 1).unwrap_err();
    match error {
        ProofServiceError::ContextDeserializationError(message) => assert!(!message.is_empty()),
        other => panic!("not a context error: {:?}", other),
    }
}

#[test]
fn the_lookup_reads_the_field_of_the_provider() {
    let context = "{\"extractedParameters\":{\"email\":\"A@b.c\",\"username\":\"al\"}}";
    assert_eq!(IdentityRecordBuilder::lookup_field(&IdentityProvider::Google, context), Ok(Some("A@b.c".to_string())));
    assert_eq!(IdentityRecordBuilder::lookup_field(&IdentityProvider::Github, context), Ok(Some("al".to_string())));
    assert_eq!(IdentityRecordBuilder::lookup_field(&IdentityProvider::X, context), Ok(None));
    assert!(IdentityRecordBuilder::lookup_field(&IdentityProvider::X, "").is_err());
}

#[test]
fn a_record_is_made_of_what_the_lookup_found() {
    let record = IdentityRecordBuilder::record_from_lookup(
        &IdentityProvider::Github,
        proof_with(""),
        Ok(Some("al".to_string())),
        3,
    )
    .unwrap();
    assert!(matches!(record, IdentityRecord::Github(_)));
    let error = IdentityRecordBuilder::record_from_lookup(&IdentityProvider::Google, proof_with(""), Ok(None), 3)
        .unwrap_err();
    assert!(matches!(error, ProofServiceError::EmailNotFound));
    let error = IdentityRecordBuilder::record_from_lookup(
        &IdentityProvider::Google,
        proof_with(""),
        Err("bad".to_string()),
        3,
    )
    .unwrap_err();
    assert!(matches!(error, ProofServiceError::ContextDeserializationError(message) if message == "bad"));
}

#[test]
fn providers_are_read_from_their_names() {
    assert!(matches!(IdentityProvider::from_name("x".to_string()), IdentityProvider::X));
    assert!(matches!(IdentityProvider::from_name("google".to_string()), IdentityProvider::Google));
    assert!(matches!(IdentityProvider::from_name("github".to_string()), IdentityProvider::Github));
    assert!(matches!(IdentityProvider::from_name("linkedin".to_string()), IdentityProvider::Linkedin));
    assert!(matches!(IdentityProvider::from_name("Google".to_string()), IdentityProvider::Other(name) if name == "Google"));
    assert!(matches!(IdentityProvider::from_name("".to_string()), IdentityProvider::Other(name) if name.is_empty()));
    assert_eq!(IdentityProvider::X.to_string(), "x");
    assert_eq!(IdentityProvider::Google.to_string(), "google");
    assert_eq!(IdentityProvider::Github.to_string(), "github");
    assert_eq!(IdentityProvider::Linkedin.to_string(), "linkedin");
    assert_eq!(IdentityProvider::Other("reddit".to_string()).to_string(), "reddit");
}

#[test]
fn records_take_over_what_the_proof_holds() {
    let record = GenericProviderIdentityRecord::new(proof_with("{}"), 8, "any".to_string());
    assert_eq!(record.proof_identifier, "0xproof");
    assert_eq!(record.created_at, 8);
    let record = IdentityRecordV2::new(proof_with("{}"), 8, "provider-1".to_string());
    assert_eq!(record.claim_data_params, "{\"url\":\"https://example.org\"}");
    assert_eq!(record.provider_id, "provider-1");
    let record = UserIdentityRecord::new(proof_with("{}"), 8, "provider-1".to_string());
    assert_eq!(record.claim_data_params, "{\"url\":\"https://example.org\"}");
    assert_eq!(record.proof_identifier, "0xproof");
    assert_eq!(record.public_data, Some(vec![("plan".to_string(), "free".to_string())]));
}

#[test]
fn only_a_proof_that_holds_gives_data_to_sign() {
    assert!(matches!(ReclaimProofValidator::verdict(Ok(true)), Ok(true)));
    assert!(matches!(
        ReclaimProofValidator::verdict(Ok(false)),
        Err(ProofError::ProofNotVerifiedError(message)) if message == "Proof is not valid"
    ));
    assert!(matches!(
        ReclaimProofValidator::verdict(Err("witness unreachable".to_string())),
        Err(ProofError::ProofNotVerifiedError(message)) if message == "witness unreachable"
    ));
    let service = ProofService { data: proof_with("{}"), provider_id: "provider-1".to_string() };
    let record = service.validate_and_get_data_to_sign(Ok(true), 77).unwrap();
    assert_eq!(record.created_at, 77);
    assert_eq!(record.provider_id, "provider-1");
    assert_eq!(record.proof_identifier, "0xproof");
    let service = ProofService { data: proof_with("{}"), provider_id: "provider-1".to_string() };
    assert!(service.validate_and_get_data_to_sign(Ok(false), 77).is_err());
}

#[test]
fn the_payload_to_apply_is_the_record_of_the_provider() {
    let context = "{\"extractedParameters\":{\"username\":\"al\"}}";
    let service = ProofService { data: proof_with(context), provider_id: "github".to_string() };
    match service.prepare_payload_to_apply(Ok(true), 11).unwrap() {
        IdentityRecord::Github(record) => {
            assert_eq!(record.username, "al");
            assert_eq!(record.created_at, 11);
        },
        other => panic!("not a github record: {:?}", other),
    }
    let service = ProofService { data: proof_with(context), provider_id: "gitlab".to_string() };
    assert!(matches!(service.prepare_payload_to_apply(Ok(true), 11).unwrap(), IdentityRecord::Generic(_)));
    let service = ProofService { data: proof_with(context), provider_id: "google".to_string() };
    assert!(matches!(service.prepare_payload_to_apply(Ok(true), 11).unwrap_err(), ProofServiceError::EmailNotFound));
    let service = ProofService { data: proof_with(context), provider_id: "github".to_string() };
    let error = service.prepare_payload_to_apply(Ok(false), 11).unwrap_err();
    assert!(matches!(&error, ProofServiceError::ReclaimProofNotVerifiedError(message) if message == "Proof is not valid"));
    assert_eq!(error.status_code(), 400);
    assert_eq!(error.message(), "Reclaim proof could not be verified: Proof is not valid");
    let service = ProofService { data: proof_with(context), provider_id: "github".to_string() };
    let error = service.prepare_payload_to_apply(Err("no witness".to_string()), 11).unwrap_err();
    assert!(matches!(error, ProofServiceError::ReclaimProofNotVerifiedError(message) if message == "no witness"));
}
