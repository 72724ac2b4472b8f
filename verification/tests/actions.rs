use base64::Engine;
use tandem::actions::append_handle::{
    append_handle_directives, ActionAppendHandle, AppendHandleError,
};
use tandem::chain::{next_operation, ChainError};
use tandem::actions::create_account::{
    generated_recovery_key, key_source_of, provided_recovery_key, suggested_handle,
    CreateAccountError, RecoveryKeySource,
};
use tandem::actions::domain::{ActionError, TandemAction};
use tandem::actions::factory::{action_label, get_action, supported_actions};
use tandem::actions::prepare::{
    key_position_of, key_type_of, rotation_key_patch, ActionPrepare, KeyPosition, PrepareError,
};
use tandem::crypto::{canonical_encoding, jwk_to_did_key, k256, p256, validate, CryptoError, Curve};
use tandem::patch::{PatchApplicationError, PatchDirective};
use tandem::plc::{AuditEntry, Timestamp};

const P256_JWK: &str = r#"{"kty":"EC","crv":"P-256","x":"gI0GAILBdu7T53akrFmMyGcsF3n5dO7MmwNBHKW5SV0","y":"SLW_xSffzlPWrHEVI30DHM_4egVwt3NQqeUD7nMFpps","d":"0_NxaRPUMQoAJt50Gz8YiTr8gRTwyEaCumd-MToTmIo"}"#;

fn json(text: &str) -> serde_json::Value {
    serde_json::from_str(text).unwrap()
}

fn entry(cid: &str, handle: &str, seconds: i64) -> AuditEntry {
    AuditEntry {
        operation: format!(
            r#"{{"type":"plc_operation","alsoKnownAs":["at://{}"],"prev":null,"rotationKeys":["did:key:one"],"sig":"sig-of-{}"}}"#,
            handle, cid
        ),
        cid: cid.to_string(),
        created_at: Timestamp { seconds, nanos: 0 },
    }
}

#[test]
fn the_menu_of_operations() {
    assert_eq!(get_action(0), Ok(TandemAction::Prepare));
    assert_eq!(get_action(1), Ok(TandemAction::CreateAccount));
    assert_eq!(get_action(2), Ok(TandemAction::Migrate));
    assert_eq!(get_action(3), Ok(TandemAction::AppendHandle));
    assert_eq!(get_action(4), Err(ActionError::UnsupportedOperation));
    assert_eq!(get_action(usize::MAX), Err(ActionError::UnsupportedOperation));
    assert_eq!(
        supported_actions(),
        vec!["Upgrade Account", "Create Account", "Migrate Account", "Append Handle"]
    );
    for (position, label) in supported_actions().iter().enumerate() {
        assert_eq!(action_label(get_action(position).unwrap()), *label);
    }
}

#[test]
fn append_handle_checks_its_inputs_in_order() {
    let ok = ActionAppendHandle::new("at://did:plc:abc123", P256_JWK, "@Alice.Test").unwrap();
    assert_eq!(ok.did(), "did:plc:abc123");
    assert_eq!(ok.jwk(), P256_JWK);
    assert_eq!(ok.new_handle(), "alice.test");
    assert_eq!(ok.did_key(), &p256::jwk_to_did_key(P256_JWK).unwrap());

    assert_eq!(
        ActionAppendHandle::new("did:web:x", "junk", "nodot"),
        Err(AppendHandleError::InvalidDid)
    );
    assert_eq!(
        ActionAppendHandle::new("did:plc:abc123", "junk", "nodot"),
        Err(AppendHandleError::Key(CryptoError::KeyDecoding))
    );
    assert_eq!(
        ActionAppendHandle::new("did:plc:abc123", P256_JWK, "nodot"),
        Err(AppendHandleError::InvalidHandle)
    );
    let p384 = r#"{"kty":"EC","crv":"P-384","x":"AAAA","y":"AAAA","d":"AAAA"}"#;
    assert_eq!(
        ActionAppendHandle::new("did:plc:abc123", p384, "nodot"),
        Err(AppendHandleError::InvalidHandle)
    );
    assert_eq!(
        ActionAppendHandle::new("did:plc:abc123", p384, "alice.test"),
        Err(AppendHandleError::Key(CryptoError::UnsupportedCurve))
    );
    let public_only = r#"{"kty":"EC","crv":"P-256","x":"gI0GAILBdu7T53akrFmMyGcsF3n5dO7MmwNBHKW5SV0","y":"SLW_xSffzlPWrHEVI30DHM_4egVwt3NQqeUD7nMFpps"}"#;
    assert_eq!(
        ActionAppendHandle::new("did:plc:abc123", public_only, "alice.test"),
        Err(AppendHandleError::Key(CryptoError::KeyDecoding))
    );
}

#[test]
fn append_handle_works_on_the_curve_of_the_key() {
    let (k_secret, k_public) = k256::gen_key().unwrap();
    let request = ActionAppendHandle::new("did:plc:abc123", &k_secret, "alice.test").unwrap();
    assert_eq!(request.did_key(), &k_public);
    let (_, bytes) = multibase::decode(request.did_key()).unwrap();
    assert_eq!(&bytes[..2], &[0xe7, 0x01]);

    let log = vec![entry("cid-1", "alice.example", 100), entry("cid-2", "alice.example", 200)];
    let next = request.run(&log).unwrap();
    assert_eq!(next.last_commit, "cid-2");
    let signed = json(&next.signed_operation);
    assert_eq!(signed["prev"], json("\"cid-2\""));
    let signature = base64::engine::general_purpose::URL_SAFE_NO_PAD
        .decode(signed["sig"].as_str().unwrap())
        .unwrap();
    let payload = canonical_encoding(&next.operation).unwrap();
    assert_eq!(validate(request.did_key(), &signature, &payload), Ok(()));

    let (p_secret, p_public) = p256::gen_key().unwrap();
    let request = ActionAppendHandle::new("did:plc:abc123", &p_secret, "alice.test").unwrap();
    assert_eq!(request.did_key(), &p_public);
    let (_, bytes) = multibase::decode(request.did_key()).unwrap();
    assert_eq!(&bytes[..2], &[0x80, 0x24]);
}

#[test]
fn the_patch_that_appends_a_handle() {
    assert_eq!(
        append_handle_directives("alice.test"),
        vec![PatchDirective::Add {
            path: "/alsoKnownAs/-".to_string(),
            value: "at://alice.test".to_string()
        }]
    );
}

#[test]
fn the_next_operation_follows_the_latest_entry() {
    let request = ActionAppendHandle::new("did:plc:abc123", P256_JWK, "alice.test").unwrap();
    let log = vec![
        entry("cid-1", "alice.example", 100),
        entry("cid-3", "alice.example", 300),
        entry("cid-2", "alice.example", 200),
    ];
    let next = request.run(&log).unwrap();
    assert_eq!(next.last_commit, "cid-3");
    assert_eq!(next.last_operation, log[1].operation);
    assert_eq!(
        json(&next.operation),
        json(r#"{"type":"plc_operation","alsoKnownAs":["at://alice.example","at://alice.test"],"prev":"cid-3","rotationKeys":["did:key:one"]}"#)
    );
    let signed = json(&next.signed_operation);
    assert_eq!(signed["prev"], json("\"cid-3\""));
    let mut without_sig = signed.clone();
    without_sig.as_object_mut().unwrap().remove("sig");
    assert_eq!(without_sig, json(&next.operation));

    let signature = base64::engine::general_purpose::URL_SAFE_NO_PAD
        .decode(signed["sig"].as_str().unwrap())
        .unwrap();
    let payload = canonical_encoding(&next.operation).unwrap();
    assert_eq!(validate(request.did_key(), &signature, &payload), Ok(()));
}

#[test]
fn building_twice_gives_the_same_unsigned_bytes() {
    let request = ActionAppendHandle::new("did:plc:abc123", P256_JWK, "alice.test").unwrap();
    let log = vec![entry("cid-1", "alice.example", 100)];
    let first = request.run(&log).unwrap();
    let second = request.run(&log).unwrap();
    assert_eq!(canonical_encoding(&first.operation), canonical_encoding(&second.operation));
    for next in [&first, &second] {
        let signature = base64::engine::general_purpose::URL_SAFE_NO_PAD
            .decode(json(&next.signed_operation)["sig"].as_str().unwrap())
            .unwrap();
        let payload = canonical_encoding(&next.operation).unwrap();
        assert_eq!(validate(request.did_key(), &signature, &payload), Ok(()));
    }
}

#[test]
fn an_empty_log_has_no_next_operation() {
    let request = ActionAppendHandle::new("did:plc:abc123", P256_JWK, "alice.test").unwrap();
    assert_eq!(request.run(&Vec::new()), Err(ChainError::NoOperationsFound));
}

#[test]
fn a_tip_without_signature_takes_no_patch() {
    let request = ActionAppendHandle::new("did:plc:abc123", P256_JWK, "alice.test").unwrap();
    let log = vec![AuditEntry {
        operation: r#"{"alsoKnownAs":[],"prev":null}"#.to_string(),
        cid: "cid-1".to_string(),
        created_at: Timestamp { seconds: 1, nanos: 0 },
    }];
    assert_eq!(
        request.run(&log),
        Err(ChainError::Patch(PatchApplicationError { directive: 1 }))
    );
    let log = vec![AuditEntry {
        operation: r#"{"prev":null,"sig":"old"}"#.to_string(),
        cid: "cid-1".to_string(),
        created_at: Timestamp { seconds: 1, nanos: 0 },
    }];
    assert_eq!(
        request.run(&log),
        Err(ChainError::Patch(PatchApplicationError { directive: 0 }))
    );
}

#[test]
fn any_change_is_linked_to_the_tip() {
    let log = vec![entry("cid-1", "alice.example", 100), entry("cid-2", "alice.example", 200)];
    let next = next_operation(P256_JWK, &log, Vec::new()).unwrap();
    assert_eq!(next.last_commit, "cid-2");
    assert_eq!(
        json(&next.operation),
        json(r#"{"type":"plc_operation","alsoKnownAs":["at://alice.example"],"prev":"cid-2","rotationKeys":["did:key:one"]}"#)
    );
    let changes = rotation_key_patch(KeyPosition::First, "zNew");
    let next = next_operation(P256_JWK, &log, changes).unwrap();
    assert_eq!(json(&next.operation)["rotationKeys"], json(r#"["did:key:zNew","did:key:one"]"#));
    assert_eq!(json(&next.signed_operation)["prev"], json("\"cid-2\""));
    let absent = vec![PatchDirective::Remove { path: "/absent".to_string() }];
    assert_eq!(
        next_operation(P256_JWK, &log, absent),
        Err(ChainError::Patch(PatchApplicationError { directive: 0 }))
    );
    assert_eq!(
        next_operation("junk", &log, Vec::new()),
        Err(ChainError::Key(CryptoError::KeyDecoding))
    );
    assert_eq!(
        next_operation(P256_JWK, &Vec::new(), Vec::new()),
        Err(ChainError::NoOperationsFound)
    );
}

#[test]
fn choices_for_a_rotation_key() {
    assert_eq!(key_type_of(0), Curve::P256);
    assert_eq!(key_type_of(1), Curve::K256);
    assert_eq!(key_type_of(7), Curve::K256);
    assert_eq!(key_position_of(0), KeyPosition::First);
    assert_eq!(key_position_of(1), KeyPosition::Last);
    assert_eq!(key_position_of(9), KeyPosition::Last);
    assert_eq!(
        rotation_key_patch(KeyPosition::First, "zDnaKey"),
        vec![PatchDirective::Add {
            path: "/rotationKeys/0".to_string(),
            value: "did:key:zDnaKey".to_string()
        }]
    );
    assert_eq!(
        rotation_key_patch(KeyPosition::Last, "zDnaKey"),
        vec![PatchDirective::Add {
            path: "/rotationKeys/-".to_string(),
            value: "did:key:zDnaKey".to_string()
        }]
    );
}

#[test]
fn installing_a_rotation_key() {
    let data = r#"{"alsoKnownAs":["at://alice.example"],"rotationKeys":["did:key:one","did:key:two"]}"#;
    let first = ActionPrepare::new("at://Alice.Example", 0, 0).unwrap();
    assert_eq!(first.handle, "alice.example");
    assert_eq!(first.key_type, Curve::P256);
    assert_eq!(first.key_position, KeyPosition::First);
    assert_eq!(
        json(&first.run(data, "zNew").unwrap())["rotationKeys"],
        json(r#"["did:key:zNew","did:key:one","did:key:two"]"#)
    );
    let last = ActionPrepare::new("alice.example", 1, 1).unwrap();
    assert_eq!(last.key_type, Curve::K256);
    assert_eq!(
        json(&last.run(data, "zNew").unwrap())["rotationKeys"],
        json(r#"["did:key:one","did:key:two","did:key:zNew"]"#)
    );
    assert_eq!(last.run("{}", "zNew"), Err(PatchApplicationError { directive: 0 }));
    assert_eq!(ActionPrepare::new("alice", 0, 0), Err(PrepareError::InvalidHandle));
}

#[test]
fn choices_for_a_new_account() {
    assert_eq!(key_source_of(0), Ok(RecoveryKeySource::ProvidedJwk));
    assert_eq!(key_source_of(1), Ok(RecoveryKeySource::GenerateP256));
    assert_eq!(key_source_of(2), Ok(RecoveryKeySource::GenerateK256));
    assert_eq!(key_source_of(3), Err(CreateAccountError::InvalidKeyType));
    let domains = vec![".pds.example".to_string(), ".other.example".to_string()];
    assert_eq!(suggested_handle("calm-otter", &domains), Ok("calm-otter.pds.example".to_string()));
    assert_eq!(
        suggested_handle("calm-otter", &Vec::new()),
        Err(CreateAccountError::NoAvailableDomains)
    );
}

#[test]
fn recovery_keys() {
    let provided = provided_recovery_key(P256_JWK).unwrap();
    assert_eq!(provided.generated_secret, None);
    assert_eq!(provided.recovery_key, format!("did:key:{}", jwk_to_did_key(P256_JWK).unwrap()));
    assert_eq!(
        provided_recovery_key("junk"),
        Err(CreateAccountError::Key(CryptoError::KeyDecoding))
    );
    for curve in [Curve::P256, Curve::K256] {
        let generated = generated_recovery_key(curve).unwrap();
        let secret = generated.generated_secret.unwrap();
        assert_eq!(Curve::of_secret(&secret), Ok(curve));
        assert_eq!(
            generated.recovery_key,
            format!("did:key:{}", jwk_to_did_key(&secret).unwrap())
        );
    }
}
