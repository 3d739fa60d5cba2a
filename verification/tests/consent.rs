use cybulous::{
    BlockchainClient, ConsentAttestation, ConsentEngine, ConsentError, ConsentRecord,
    ConsentStatus, GrantInput, GrantStep, RevokeInput, RevokeStep, Timestamp, VerifyInput,
    VerifyStep, DEFAULT_MIN_AGE,
};

/// A stand-in digest: 64-bit FNV-1a, in hexadecimal.
fn digest(text: &str) -> String {
    let mut state: u64 = 0xcbf2_9ce4_8422_2325;
    for byte in text.bytes() {
        state ^= u64::from(byte);
        state = state.wrapping_mul(0x0000_0100_0000_01b3);
    }
    format!("{:016x}", state)
}

fn at(secs: i64) -> Timestamp {
    Timestamp { secs, nanos: 0 }
}

fn record(status: ConsentStatus, expires_at: Option<Timestamp>, tx_hash: &str) -> ConsentRecord {
    ConsentRecord {
        id: uuid::Uuid::from_u128(7),
        user_id: "alice".to_string(),
        status,
        granted_at: at(1_000),
        expires_at,
        revoked_at: if status == ConsentStatus::Revoked { Some(at(2_000)) } else { None },
        tx_hash: tx_hash.to_string(),
        age_proof: "age:30".to_string(),
        discipline_proof: "discipline:verified".to_string(),
    }
}

fn attestation(age: u8) -> ConsentAttestation {
    ConsentAttestation {
        user_id: "alice".to_string(),
        age,
        discipline_proof: "discipline:verified".to_string(),
        timestamp: at(1_000),
    }
}

/// Drives a whole verification against the stand-in ledger.
fn verify(engine: &ConsentEngine, client: &BlockchainClient, user_id: &str, proof: &str) -> Result<bool, ConsentError> {
    let mut step = engine.verify_consent(VerifyInput::Start {
        user_id: user_id.to_string(),
        proof: proof.to_string(),
    });
    loop {
        step = match step {
            VerifyStep::FetchRecord { user_id, proof } => {
                let answer = client.get_consent_record(&user_id);
                engine.verify_consent(VerifyInput::RecordFetched { proof, answer })
            }
            VerifyStep::HashProof { proof, preimage } => {
                let digest = digest(&preimage);
                engine.verify_consent(VerifyInput::ProofHashed { proof, digest })
            }
            VerifyStep::Done(verdict) => return verdict,
        };
    }
}

#[test]
fn test_consent_verification() {
    let engine = ConsentEngine::mock();
    let client = BlockchainClient::mock();
    let result = verify(&engine, &client, "test-user", "test-proof");
    assert!(result.is_ok());
}

#[test]
fn mock_engine_has_the_default_minimum_age() {
    assert_eq!(DEFAULT_MIN_AGE, 21);
    assert_eq!(ConsentEngine::mock().min_age(), 21);
    assert_eq!(ConsentEngine::new(18).min_age(), 18);
}

#[test]
fn grant_begins_with_the_age_question() {
    let engine = ConsentEngine::mock();
    let step = engine.request_consent(GrantInput::Start { user_id: "alice".to_string() });
    assert!(matches!(step, GrantStep::VerifyAge { user_id } if user_id == "alice"));
}

#[test]
fn every_age_below_twenty_one_is_rejected() {
    let engine = ConsentEngine::mock();
    for age in 0u8..21 {
        let step = engine.request_consent(GrantInput::AgeVerified {
            user_id: "alice".to_string(),
            answer: Ok(age),
        });
        assert!(
            matches!(step, GrantStep::Done(Err(ConsentError::AgeRequirementNotMet(a))) if a == age)
        );
    }
}

#[test]
fn every_age_from_twenty_one_on_is_asked_the_discipline_question() {
    let engine = ConsentEngine::mock();
    for age in 21u8..=255 {
        let step = engine.request_consent(GrantInput::AgeVerified {
            user_id: "alice".to_string(),
            answer: Ok(age),
        });
        assert!(
            matches!(step, GrantStep::CheckDiscipline { user_id, age: a } if user_id == "alice" && a == age)
        );
    }
}

#[test]
fn minimum_age_is_the_configured_one() {
    let engine = ConsentEngine::new(30);
    let below = engine.request_consent(GrantInput::AgeVerified {
        user_id: "bob".to_string(),
        answer: Ok(29),
    });
    assert!(matches!(below, GrantStep::Done(Err(ConsentError::AgeRequirementNotMet(29)))));
    let at_minimum = engine.request_consent(GrantInput::AgeVerified {
        user_id: "bob".to_string(),
        answer: Ok(30),
    });
    assert!(matches!(at_minimum, GrantStep::CheckDiscipline { age: 30, .. }));
    let no_minimum = ConsentEngine::new(0).request_consent(GrantInput::AgeVerified {
        user_id: "bob".to_string(),
        answer: Ok(0),
    });
    assert!(matches!(no_minimum, GrantStep::CheckDiscipline { age: 0, .. }));
}

#[test]
fn provider_failure_on_age_is_a_provider_error() {
    let engine = ConsentEngine::mock();
    let step = engine.request_consent(GrantInput::AgeVerified {
        user_id: "alice".to_string(),
        answer: Err("provider unreachable".to_string()),
    });
    assert!(
        matches!(step, GrantStep::Done(Err(ConsentError::ProviderError(reason))) if reason == "provider unreachable")
    );
}

#[test]
fn discipline_rejection_is_reported_with_its_reason() {
    let engine = ConsentEngine::mock();
    let step = engine.request_consent(GrantInput::DisciplineChecked {
        user_id: "alice".to_string(),
        age: 25,
        answer: Err("not enrolled".to_string()),
    });
    assert!(
        matches!(step, GrantStep::Done(Err(ConsentError::DisciplineIneligible(reason))) if reason == "not enrolled")
    );
}

#[test]
fn discipline_proof_goes_into_the_attestation() {
    let engine = ConsentEngine::mock();
    let step = engine.advance_grant(
        GrantInput::DisciplineChecked {
            user_id: "alice".to_string(),
            age: 25,
            answer: Ok("discipline:verified".to_string()),
        },
        Timestamp { secs: 1_700_000_000, nanos: 5 },
        uuid::Uuid::from_u128(1),
    );
    match step {
        GrantStep::RecordConsent { attestation } => {
            assert_eq!(attestation.user_id, "alice");
            assert_eq!(attestation.age, 25);
            assert_eq!(attestation.discipline_proof, "discipline:verified");
            assert_eq!(attestation.timestamp, Timestamp { secs: 1_700_000_000, nanos: 5 });
        }
        other => panic!("unexpected step: {:?}", other),
    }
}

#[test]
fn attestation_is_stamped_with_the_clock() {
    let engine = ConsentEngine::mock();
    let step = engine.request_consent(GrantInput::DisciplineChecked {
        user_id: "alice".to_string(),
        age: 25,
        answer: Ok("discipline:verified".to_string()),
    });
    match step {
        GrantStep::RecordConsent { attestation } => {
            assert!(attestation.timestamp.secs > 1_600_000_000);
            assert!(attestation.timestamp.nanos < 1_000_000_000);
        }
        other => panic!("unexpected step: {:?}", other),
    }
}

#[test]
fn underage_is_rejected_at_every_point_of_the_grant() {
    let engine = ConsentEngine::mock();
    let late = engine.request_consent(GrantInput::DisciplineChecked {
        user_id: "alice".to_string(),
        age: 20,
        answer: Ok("discipline:verified".to_string()),
    });
    assert!(matches!(late, GrantStep::Done(Err(ConsentError::AgeRequirementNotMet(20)))));
    let later = engine.request_consent(GrantInput::Recorded {
        attestation: attestation(17),
        answer: Ok("tx-hash-alice".to_string()),
    });
    assert!(matches!(later, GrantStep::Done(Err(ConsentError::AgeRequirementNotMet(17)))));
}

#[test]
fn ledger_failure_on_submission_is_a_blockchain_error() {
    let engine = ConsentEngine::mock();
    let step = engine.request_consent(GrantInput::Recorded {
        attestation: attestation(25),
        answer: Err("broadcast failed".to_string()),
    });
    assert!(
        matches!(step, GrantStep::Done(Err(ConsentError::BlockchainError(reason))) if reason == "broadcast failed")
    );
}

#[test]
fn granted_record_is_exact() {
    let engine = ConsentEngine::mock();
    let id = uuid::Uuid::from_u128(0xfeed);
    let now = Timestamp { secs: 1_700_000_123, nanos: 456 };
    let step = engine.advance_grant(
        GrantInput::Recorded { attestation: attestation(42), answer: Ok("tx-9".to_string()) },
        now,
        id,
    );
    match step {
        GrantStep::Done(Ok(record)) => {
            assert_eq!(record.id, id);
            assert_eq!(record.user_id, "alice");
            assert_eq!(record.status, ConsentStatus::Active);
            assert_eq!(record.granted_at, now);
            assert_eq!(record.expires_at, None);
            assert_eq!(record.revoked_at, None);
            assert_eq!(record.tx_hash, "tx-9");
            assert_eq!(record.age_proof, "age:42");
            assert_eq!(record.discipline_proof, "discipline:verified");
            assert!(record.is_well_formed());
        }
        other => panic!("unexpected step: {:?}", other),
    }
}

#[test]
fn granted_record_gets_a_fresh_identifier() {
    let engine = ConsentEngine::mock();
    let grant = |engine: &ConsentEngine| match engine.request_consent(GrantInput::Recorded {
        attestation: attestation(25),
        answer: Ok("tx-1".to_string()),
    }) {
        GrantStep::Done(Ok(record)) => record,
        other => panic!("unexpected step: {:?}", other),
    };
    let first = grant(&engine);
    let second = grant(&engine);
    assert_ne!(first.id, second.id);
    assert!(first.granted_at.secs > 1_600_000_000);
}

#[test]
fn empty_transaction_reference_is_kept_as_the_ledger_gave_it() {
    let engine = ConsentEngine::mock();
    let step = engine.request_consent(GrantInput::Recorded {
        attestation: attestation(25),
        answer: Ok(String::new()),
    });
    match step {
        GrantStep::Done(Ok(record)) => {
            assert_eq!(record.status, ConsentStatus::Active);
            assert_eq!(record.tx_hash, "");
            assert!(!record.is_well_formed());
        }
        other => panic!("unexpected step: {:?}", other),
    }
}

#[test]
fn consent_is_granted_and_then_verified() {
    let engine = ConsentEngine::new(21);
    let client = BlockchainClient::mock();
    let mut step = engine.request_consent(GrantInput::Start { user_id: "test-user".to_string() });
    let mut asked: Vec<&str> = Vec::new();
    let record = loop {
        step = match step {
            GrantStep::VerifyAge { user_id } => {
                asked.push("age");
                engine.request_consent(GrantInput::AgeVerified { user_id, answer: Ok(25) })
            }
            GrantStep::CheckDiscipline { user_id, age } => {
                asked.push("discipline");
                engine.request_consent(GrantInput::DisciplineChecked {
                    user_id,
                    age,
                    answer: Ok("discipline:verified".to_string()),
                })
            }
            GrantStep::RecordConsent { attestation } => {
                asked.push("ledger");
                let answer = client.record_consent(&attestation);
                engine.request_consent(GrantInput::Recorded { attestation, answer })
            }
            GrantStep::Done(outcome) => break outcome.expect("the grant succeeds"),
        };
    };
    assert_eq!(asked, vec!["age", "discipline", "ledger"]);
    assert_eq!(record.status, ConsentStatus::Active);
    assert_eq!(record.age_proof, "age:25");
    assert_eq!(record.discipline_proof, "discipline:verified");
    assert!(!record.tx_hash.is_empty());
    assert_eq!(record.tx_hash, "tx-hash-test-user");
    assert_eq!(record.revoked_at, None);

    let proof = digest(&engine.proof_preimage(&record.tx_hash));
    let fetched = engine.verify_consent(VerifyInput::RecordFetched {
        proof: proof.clone(),
        answer: Ok(record),
    });
    let verdict = match fetched {
        VerifyStep::HashProof { proof, preimage } => {
            assert_eq!(preimage, "tx-hash-test-user:21");
            let digest = digest(&preimage);
            engine.verify_consent(VerifyInput::ProofHashed { proof, digest })
        }
        other => panic!("unexpected step: {:?}", other),
    };
    assert!(matches!(verdict, VerifyStep::Done(Ok(true))));
}

#[test]
fn underage_grant_asks_neither_discipline_nor_ledger() {
    let engine = ConsentEngine::mock();
    let mut step = engine.request_consent(GrantInput::Start { user_id: "kid".to_string() });
    let mut discipline_calls = 0;
    let mut ledger_calls = 0;
    let outcome = loop {
        step = match step {
            GrantStep::VerifyAge { user_id } => {
                engine.request_consent(GrantInput::AgeVerified { user_id, answer: Ok(20) })
            }
            GrantStep::CheckDiscipline { user_id, age } => {
                discipline_calls += 1;
                engine.request_consent(GrantInput::DisciplineChecked {
                    user_id,
                    age,
                    answer: Ok("discipline:verified".to_string()),
                })
            }
            GrantStep::RecordConsent { attestation } => {
                ledger_calls += 1;
                engine.request_consent(GrantInput::Recorded {
                    attestation,
                    answer: Ok("tx".to_string()),
                })
            }
            GrantStep::Done(outcome) => break outcome,
        };
    };
    assert!(matches!(outcome, Err(ConsentError::AgeRequirementNotMet(20))));
    assert_eq!(discipline_calls, 0);
    assert_eq!(ledger_calls, 0);
}

#[test]
fn verification_begins_with_the_lookup() {
    let engine = ConsentEngine::mock();
    let step = engine.verify_consent(VerifyInput::Start {
        user_id: "alice".to_string(),
        proof: "p".to_string(),
    });
    assert!(
        matches!(step, VerifyStep::FetchRecord { user_id, proof } if user_id == "alice" && proof == "p")
    );
}

#[test]
fn ledger_failure_on_lookup_is_a_blockchain_error() {
    let engine = ConsentEngine::mock();
    let step = engine.verify_consent(VerifyInput::RecordFetched {
        proof: "p".to_string(),
        answer: Err("node down".to_string()),
    });
    assert!(
        matches!(step, VerifyStep::Done(Err(ConsentError::BlockchainError(reason))) if reason == "node down")
    );
}

#[test]
fn record_that_is_not_active_refuses_without_a_digest() {
    let engine = ConsentEngine::mock();
    for status in [ConsentStatus::Pending, ConsentStatus::Revoked, ConsentStatus::Expired] {
        let step = engine.verify_consent(VerifyInput::RecordFetched {
            proof: digest("tx-1:21"),
            answer: Ok(record(status, None, "tx-1")),
        });
        assert!(matches!(step, VerifyStep::Done(Ok(false))));
    }
}

#[test]
fn lapsed_record_refuses_without_a_digest() {
    let engine = ConsentEngine::mock();
    let step = engine.verify_consent(VerifyInput::RecordFetched {
        proof: digest("tx-1:21"),
        answer: Ok(record(ConsentStatus::Active, Some(at(0)), "tx-1")),
    });
    assert!(matches!(step, VerifyStep::Done(Ok(false))));
}

#[test]
fn record_with_expiry_ahead_is_still_active() {
    let engine = ConsentEngine::mock();
    let step = engine.verify_consent(VerifyInput::RecordFetched {
        proof: "p".to_string(),
        answer: Ok(record(ConsentStatus::Active, Some(at(i64::MAX)), "tx-1")),
    });
    assert!(
        matches!(step, VerifyStep::HashProof { proof, preimage } if proof == "p" && preimage == "tx-1:21")
    );
}

#[test]
fn expiry_is_judged_against_the_given_instant() {
    let engine = ConsentEngine::mock();
    let expiry = Timestamp { secs: 500, nanos: 10 };
    let judge = |now: Timestamp| {
        engine.advance_verification(
            VerifyInput::RecordFetched {
                proof: "p".to_string(),
                answer: Ok(record(ConsentStatus::Active, Some(expiry), "tx-1")),
            },
            now,
        )
    };
    assert!(matches!(judge(Timestamp { secs: 499, nanos: 999 }), VerifyStep::HashProof { .. }));
    assert!(matches!(judge(Timestamp { secs: 500, nanos: 10 }), VerifyStep::HashProof { .. }));
    assert!(matches!(judge(Timestamp { secs: 500, nanos: 11 }), VerifyStep::Done(Ok(false))));
    assert!(matches!(judge(Timestamp { secs: 501, nanos: 0 }), VerifyStep::Done(Ok(false))));
}

#[test]
fn proof_is_accepted_only_if_it_is_the_digest() {
    let engine = ConsentEngine::mock();
    let right = engine.verify_consent(VerifyInput::ProofHashed {
        proof: "abc".to_string(),
        digest: "abc".to_string(),
    });
    assert!(matches!(right, VerifyStep::Done(Ok(true))));
    for wrong in ["", "ab", "abcd", "abd", "ABC"] {
        let step = engine.verify_consent(VerifyInput::ProofHashed {
            proof: wrong.to_string(),
            digest: "abc".to_string(),
        });
        assert!(matches!(step, VerifyStep::Done(Ok(false))));
    }
}

#[test]
fn preimage_binds_transaction_and_minimum_age() {
    assert_eq!(ConsentEngine::new(21).proof_preimage("mock-tx-hash"), "mock-tx-hash:21");
    assert_eq!(ConsentEngine::new(18).proof_preimage("mock-tx-hash"), "mock-tx-hash:18");
    assert_eq!(ConsentEngine::new(21).proof_preimage("other-tx"), "other-tx:21");
    assert_eq!(ConsentEngine::new(0).proof_preimage(""), ":0");
    assert_eq!(ConsentEngine::new(255).proof_preimage("a:1"), "a:1:255");
    assert_ne!(
        ConsentEngine::new(1).proof_preimage("a:1"),
        ConsentEngine::new(11).proof_preimage("a")
    );
}

#[test]
fn proof_under_another_minimum_age_is_refused() {
    let client = BlockchainClient::mock();
    let issued_under = ConsentEngine::new(21);
    let proof = digest(&issued_under.proof_preimage("mock-tx-hash"));
    assert!(matches!(verify(&issued_under, &client, "alice", &proof), Ok(true)));
    assert!(matches!(verify(&ConsentEngine::new(18), &client, "alice", &proof), Ok(false)));
    assert!(matches!(verify(&issued_under, &client, "alice", "test-proof"), Ok(false)));
}

#[test]
fn revocation_is_one_request_to_the_ledger() {
    let engine = ConsentEngine::mock();
    let client = BlockchainClient::mock();
    let step = engine.revoke_consent(RevokeInput::Start { user_id: "alice".to_string() });
    let answer = match step {
        RevokeStep::Revoke { user_id } => {
            assert_eq!(user_id, "alice");
            client.revoke_consent(&user_id)
        }
        other => panic!("unexpected step: {:?}", other),
    };
    let done = engine.revoke_consent(RevokeInput::Revoked { answer });
    assert!(matches!(done, RevokeStep::Done(Ok(()))));
    let again = engine.revoke_consent(RevokeInput::Revoked { answer: Ok(()) });
    assert!(matches!(again, RevokeStep::Done(Ok(()))));
}

#[test]
fn ledger_failure_on_revocation_is_a_blockchain_error() {
    let engine = ConsentEngine::mock();
    let step = engine.revoke_consent(RevokeInput::Revoked { answer: Err("node down".to_string()) });
    assert!(
        matches!(step, RevokeStep::Done(Err(ConsentError::BlockchainError(reason))) if reason == "node down")
    );
}

#[test]
fn consent_errors_read_as_messages() {
    assert_eq!(
        ConsentError::AgeRequirementNotMet(17).message(),
        "age requirement not met: user is 17 years old, minimum is 21"
    );
    assert_eq!(
        ConsentError::AgeRequirementNotMet(0).message(),
        "age requirement not met: user is 0 years old, minimum is 21"
    );
    assert_eq!(
        ConsentError::DisciplineIneligible("not enrolled".to_string()).message(),
        "discipline eligibility failed: not enrolled"
    );
    assert_eq!(
        ConsentError::AttestationInvalid("bad signature".to_string()).message(),
        "attestation verification failed: bad signature"
    );
    assert_eq!(
        ConsentError::ProviderError("unreachable".to_string()).message(),
        "provider error: unreachable"
    );
    assert_eq!(
        ConsentError::BlockchainError("node down".to_string()).message(),
        "blockchain error: node down"
    );
}

#[test]
fn revocation_error_prints_the_date_and_time() {
    assert_eq!(
        ConsentError::ConsentRevoked(Timestamp { secs: 1_431_648_000, nanos: 0 }).message(),
        "consent revoked at 2015-05-15 00:00:00 UTC"
    );
    assert_eq!(
        ConsentError::ConsentRevoked(Timestamp { secs: 0, nanos: 500_000_000 }).message(),
        "consent revoked at 1970-01-01 00:00:00.500 UTC"
    );
    assert_eq!(
        ConsentError::ConsentRevoked(Timestamp { secs: i64::MAX, nanos: 0 }).message(),
        "consent revoked at "
    );
    assert_eq!(
        ConsentError::ConsentRevoked(Timestamp { secs: 0, nanos: 2_000_000_000 }).message(),
        "consent revoked at "
    );
}

#[test]
fn revocation_message_ends_with_the_date_in_print() {
    assert_eq!(
        cybulous::consent::revocation_message(Some("2024-02-29 12:00:00 UTC".to_string())),
        "consent revoked at 2024-02-29 12:00:00 UTC"
    );
    assert_eq!(cybulous::consent::revocation_message(Some(String::new())), "consent revoked at ");
    assert_eq!(cybulous::consent::revocation_message(None), "consent revoked at ");
}

#[test]
fn active_record_reads_as_expired_once_its_expiry_has_passed() {
    let lapsing = record(ConsentStatus::Active, Some(at(100)), "tx-1");
    assert_eq!(lapsing.status_at(&at(99)), ConsentStatus::Active);
    assert_eq!(lapsing.status_at(&at(100)), ConsentStatus::Active);
    assert_eq!(lapsing.status_at(&at(101)), ConsentStatus::Expired);
    assert_eq!(lapsing.status, ConsentStatus::Active);
    let lasting = record(ConsentStatus::Active, None, "tx-1");
    assert_eq!(lasting.status_at(&at(i64::MAX)), ConsentStatus::Active);
    let revoked = record(ConsentStatus::Revoked, Some(at(100)), "tx-1");
    assert_eq!(revoked.status_at(&at(101)), ConsentStatus::Revoked);
    let pending = record(ConsentStatus::Pending, Some(at(100)), "");
    assert_eq!(pending.status_at(&at(101)), ConsentStatus::Pending);
}

#[test]
fn record_invariant_is_checked() {
    assert!(record(ConsentStatus::Active, None, "tx-1").is_well_formed());
    assert!(record(ConsentStatus::Revoked, None, "tx-1").is_well_formed());
    assert!(record(ConsentStatus::Pending, None, "").is_well_formed());
    assert!(!record(ConsentStatus::Active, None, "").is_well_formed());
    let mut revoked_without_time = record(ConsentStatus::Revoked, None, "tx-1");
    revoked_without_time.revoked_at = None;
    assert!(!revoked_without_time.is_well_formed());
    let mut active_with_time = record(ConsentStatus::Active, None, "tx-1");
    active_with_time.revoked_at = Some(at(5));
    assert!(!active_with_time.is_well_formed());
}

#[test]
fn instants_are_ordered_by_seconds_then_nanoseconds() {
    let early = Timestamp { secs: 10, nanos: 999_999_999 };
    let late = Timestamp { secs: 11, nanos: 0 };
    assert!(late.is_after(&early));
    assert!(!early.is_after(&late));
    assert!(!early.is_after(&early));
    assert!(Timestamp { secs: 10, nanos: 2 }.is_after(&Timestamp { secs: 10, nanos: 1 }));
    assert!(Timestamp { secs: 0, nanos: 0 }.is_after(&Timestamp { secs: -1, nanos: 999 }));
}

#[test]
fn stand_in_ledger_keeps_what_it_was_made_with() {
    let client = BlockchainClient::new("http://node:26657".to_string(), "bostrom1abc".to_string());
    assert_eq!(client.rpc_endpoint(), "http://node:26657");
    assert_eq!(client.address(), "bostrom1abc");
    let mock = BlockchainClient::mock();
    assert_eq!(mock.rpc_endpoint(), "http://localhost:26657");
    assert_eq!(mock.address(), "bostrom18sd2ujv24ual9c9pshtxys6j8knh6xaead9ye7");
}

#[test]
fn stand_in_ledger_holds_an_active_record_of_everyone() {
    let client = BlockchainClient::mock();
    let record = client.get_consent_record("carol").expect("the lookup succeeds");
    assert_eq!(record.user_id, "carol");
    assert_eq!(record.status, ConsentStatus::Active);
    assert_eq!(record.expires_at, None);
    assert_eq!(record.revoked_at, None);
    assert_eq!(record.tx_hash, "mock-tx-hash");
    assert_eq!(record.age_proof, "age:25");
    assert_eq!(record.discipline_proof, "discipline:verified");
    assert!(record.granted_at.secs > 1_600_000_000);
    assert!(record.is_well_formed());
    let other = client.get_consent_record("carol").expect("the lookup succeeds");
    assert_ne!(record.id, other.id);
    let fixed = client.standing_record("dave", at(9), uuid::Uuid::from_u128(3));
    assert_eq!(fixed.user_id, "dave");
    assert_eq!(fixed.granted_at, at(9));
    assert_eq!(fixed.id, uuid::Uuid::from_u128(3));
}

#[test]
fn stand_in_ledger_names_submissions_after_the_user() {
    let client = BlockchainClient::mock();
    assert_eq!(client.record_consent(&attestation(25)), Ok("tx-hash-alice".to_string()));
    assert_eq!(client.revoke_consent("alice"), Ok(()));
}
