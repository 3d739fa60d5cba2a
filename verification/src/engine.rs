//! The consent engine: the policy under which consent is granted, verified
//! and revoked.
//!
//! The engine talks to two outside parties, the identity provider and the
//! ledger, and to a digest function. It never calls them. Each of its three
//! operations is a transition function: the input says what has been learnt
//! so far, the step says what to ask next, or how the operation ended. The
//! caller asks, and comes back with the answer.

use vstd::prelude::*;
use vstd::string::*;
use crate::consent::{
    ConsentAttestation,
    ConsentAttestationView,
    ConsentError,
    ConsentErrorView,
    ConsentRecord,
    ConsentRecordView,
    ConsentStatus,
};
use crate::foreign::fresh_id;
use crate::text::{
    decimal,
    digit_char,
    is_digit,
    lemma_decimal_injective,
    lemma_decimal_shape,
    push_decimal,
};
use crate::time::{now, Timestamp};

verus! {

/// The minimum age of an engine made without one.
pub const DEFAULT_MIN_AGE: u8 = 21;

/// An answer of the outside world: a value, or the text of its failure.
pub open spec fn answer_view<T>(answer: Result<T, String>) -> Result<T, Seq<char>> {
    match answer {
        Ok(value) => Ok(value),
        Err(reason) => Err(reason@),
    }
}

/// An answer of the outside world that is itself a text.
pub open spec fn text_answer_view(answer: Result<String, String>) -> Result<Seq<char>, Seq<char>> {
    match answer {
        Ok(value) => Ok(value@),
        Err(reason) => Err(reason@),
    }
}

/// The ledger's answer to a lookup.
pub open spec fn record_answer_view(answer: Result<ConsentRecord, String>) -> Result<
    ConsentRecordView,
    Seq<char>,
> {
    match answer {
        Ok(record) => Ok(record@),
        Err(reason) => Err(reason@),
    }
}

/// What has been learnt so far in granting consent.
#[derive(Debug)]
#[allow(inconsistent_fields)]
pub enum GrantInput {
    /// Nothing yet: `user_id` asks for consent.
    Start { user_id: String },
    /// The provider has answered the age question.
    AgeVerified { user_id: String, answer: Result<u8, String> },
    /// The provider has answered the discipline question.
    DisciplineChecked { user_id: String, age: u8, answer: Result<String, String> },
    /// The ledger has answered the submission of the attestation.
    Recorded { attestation: ConsentAttestation, answer: Result<String, String> },
}

/// What a [`GrantInput`] holds.
#[allow(inconsistent_fields)]
pub enum GrantInputView {
    Start { user_id: Seq<char> },
    AgeVerified { user_id: Seq<char>, answer: Result<u8, Seq<char>> },
    DisciplineChecked { user_id: Seq<char>, age: u8, answer: Result<Seq<char>, Seq<char>> },
    Recorded { attestation: ConsentAttestationView, answer: Result<Seq<char>, Seq<char>> },
}

impl View for GrantInput {
    type V = GrantInputView;

    open spec fn view(&self) -> GrantInputView {
        match self {
            GrantInput::Start { user_id } => GrantInputView::Start { user_id: user_id@ },
            GrantInput::AgeVerified { user_id, answer } => GrantInputView::AgeVerified {
                user_id: user_id@,
                answer: answer_view(*answer),
            },
            GrantInput::DisciplineChecked {
                user_id,
                age,
                answer,
            } => GrantInputView::DisciplineChecked {
                user_id: user_id@,
                age: *age,
                answer: text_answer_view(*answer),
            },
            GrantInput::Recorded { attestation, answer } => GrantInputView::Recorded {
                attestation: attestation@,
                answer: text_answer_view(*answer),
            },
        }
    }
}

/// What to do next in granting consent.
#[derive(Debug)]
pub enum GrantStep {
    /// Ask the provider for the age of `user_id`.
    VerifyAge { user_id: String },
    /// Ask the provider whether `user_id` is discipline-eligible.
    CheckDiscipline { user_id: String, age: u8 },
    /// Submit `attestation` to the ledger.
    RecordConsent { attestation: ConsentAttestation },
    /// The operation has ended.
    Done(Result<ConsentRecord, ConsentError>),
}

/// What a [`GrantStep`] holds.
pub enum GrantStepView {
    VerifyAge { user_id: Seq<char> },
    CheckDiscipline { user_id: Seq<char>, age: u8 },
    RecordConsent { attestation: ConsentAttestationView },
    Done(Result<ConsentRecordView, ConsentErrorView>),
}

impl View for GrantStep {
    type V = GrantStepView;

    open spec fn view(&self) -> GrantStepView {
        match self {
            GrantStep::VerifyAge { user_id } => GrantStepView::VerifyAge { user_id: user_id@ },
            GrantStep::CheckDiscipline { user_id, age } => GrantStepView::CheckDiscipline {
                user_id: user_id@,
                age: *age,
            },
            GrantStep::RecordConsent { attestation } => GrantStepView::RecordConsent {
                attestation: attestation@,
            },
            GrantStep::Done(Ok(record)) => GrantStepView::Done(Ok(record@)),
            GrantStep::Done(Err(error)) => GrantStepView::Done(Err(error@)),
        }
    }
}

/// What has been learnt so far in verifying a consent proof.
#[derive(Debug)]
pub enum VerifyInput {
    /// Nothing yet: `user_id` presents `proof`.
    Start { user_id: String, proof: String },
    /// The ledger has answered the lookup of the user's record.
    RecordFetched { proof: String, answer: Result<ConsentRecord, String> },
    /// The digest of the preimage has been computed.
    ProofHashed { proof: String, digest: String },
}

/// What a [`VerifyInput`] holds.
pub enum VerifyInputView {
    Start { user_id: Seq<char>, proof: Seq<char> },
    RecordFetched { proof: Seq<char>, answer: Result<ConsentRecordView, Seq<char>> },
    ProofHashed { proof: Seq<char>, digest: Seq<char> },
}

impl View for VerifyInput {
    type V = VerifyInputView;

    open spec fn view(&self) -> VerifyInputView {
        match self {
            VerifyInput::Start { user_id, proof } => VerifyInputView::Start {
                user_id: user_id@,
                proof: proof@,
            },
            VerifyInput::RecordFetched { proof, answer } => VerifyInputView::RecordFetched {
                proof: proof@,
                answer: record_answer_view(*answer),
            },
            VerifyInput::ProofHashed { proof, digest } => VerifyInputView::ProofHashed {
                proof: proof@,
                digest: digest@,
            },
        }
    }
}

/// What to do next in verifying a consent proof.
#[derive(Debug)]
pub enum VerifyStep {
    /// Ask the ledger for the record of `user_id`.
    FetchRecord { user_id: String, proof: String },
    /// Compute the digest of `preimage`.
    HashProof { proof: String, preimage: String },
    /// The operation has ended.
    Done(Result<bool, ConsentError>),
}

/// What a [`VerifyStep`] holds.
pub enum VerifyStepView {
    FetchRecord { user_id: Seq<char>, proof: Seq<char> },
    HashProof { proof: Seq<char>, preimage: Seq<char> },
    Done(Result<bool, ConsentErrorView>),
}

impl View for VerifyStep {
    type V = VerifyStepView;

    open spec fn view(&self) -> VerifyStepView {
        match self {
            VerifyStep::FetchRecord { user_id, proof } => VerifyStepView::FetchRecord {
                user_id: user_id@,
                proof: proof@,
            },
            VerifyStep::HashProof { proof, preimage } => VerifyStepView::HashProof {
                proof: proof@,
                preimage: preimage@,
            },
            VerifyStep::Done(Ok(accepted)) => VerifyStepView::Done(Ok(*accepted)),
            VerifyStep::Done(Err(error)) => VerifyStepView::Done(Err(error@)),
        }
    }
}

/// What has been learnt so far in revoking consent.
#[derive(Debug)]
pub enum RevokeInput {
    /// Nothing yet: `user_id` withdraws consent.
    Start { user_id: String },
    /// The ledger has answered the revocation.
    Revoked { answer: Result<(), String> },
}

/// What a [`RevokeInput`] holds.
pub enum RevokeInputView {
    Start { user_id: Seq<char> },
    Revoked { answer: Result<(), Seq<char>> },
}

impl View for RevokeInput {
    type V = RevokeInputView;

    open spec fn view(&self) -> RevokeInputView {
        match self {
            RevokeInput::Start { user_id } => RevokeInputView::Start { user_id: user_id@ },
            RevokeInput::Revoked { answer } => RevokeInputView::Revoked {
                answer: answer_view(*answer),
            },
        }
    }
}

/// What to do next in revoking consent.
#[derive(Debug)]
pub enum RevokeStep {
    /// Tell the ledger to mark the record of `user_id` revoked.
    Revoke { user_id: String },
    /// The operation has ended.
    Done(Result<(), ConsentError>),
}

/// What a [`RevokeStep`] holds.
pub enum RevokeStepView {
    Revoke { user_id: Seq<char> },
    Done(Result<(), ConsentErrorView>),
}

impl View for RevokeStep {
    type V = RevokeStepView;

    open spec fn view(&self) -> RevokeStepView {
        match self {
            RevokeStep::Revoke { user_id } => RevokeStepView::Revoke { user_id: user_id@ },
            RevokeStep::Done(Ok(())) => RevokeStepView::Done(Ok(())),
            RevokeStep::Done(Err(error)) => RevokeStepView::Done(Err(error@)),
        }
    }
}

/// The text that encodes a verified age in a record.
pub open spec fn age_proof(age: u8) -> Seq<char> {
    "age:"@ + decimal(age as nat)
}

/// The text whose digest is the consent proof of a grant: the transaction
/// reference, a colon, and the minimum age in decimal.
pub open spec fn proof_preimage(tx_hash: Seq<char>, min_age: u8) -> Seq<char> {
    tx_hash + seq![':'] + decimal(min_age as nat)
}

/// The record of a consent granted on `attestation` under the transaction
/// `tx_hash`.
pub open spec fn granted_record(
    attestation: ConsentAttestationView,
    tx_hash: Seq<char>,
    now: Timestamp,
    id: uuid::Uuid,
) -> ConsentRecordView {
    ConsentRecordView {
        id,
        user_id: attestation.user_id,
        status: ConsentStatus::Active,
        granted_at: now,
        expires_at: None,
        revoked_at: None,
        tx_hash,
        age_proof: age_proof(attestation.age),
        discipline_proof: attestation.discipline_proof,
    }
}

/// The consent engine: the age threshold under which consent is granted and
/// to which consent proofs are bound.
#[derive(Debug, Clone)]
pub struct ConsentEngine {
    min_age: u8,
}

impl ConsentEngine {
    /// The minimum age the engine was made with.
    pub closed spec fn spec_min_age(&self) -> u8 {
        self.min_age
    }

    /// Makes an engine that grants consent from `min_age` on.
    pub fn new(min_age: u8) -> (engine: Self)
        ensures
            engine.min_age() == min_age,
    {
        ConsentEngine { min_age }
    }

    /// Makes an engine with the default minimum age, for trying things out.
    pub fn mock() -> (engine: Self)
        ensures
            engine.min_age() == DEFAULT_MIN_AGE,
    {
        ConsentEngine { min_age: DEFAULT_MIN_AGE }
    }

    /// The minimum age the engine was made with.
    #[verifier::when_used_as_spec(spec_min_age)]
    pub fn min_age(&self) -> (min_age: u8)
        ensures
            min_age == self.min_age(),
    {
        self.min_age
    }

    /// The transition function of granting consent.
    ///
    /// The age is asked first and the discipline second, and an age below the
    /// minimum ends the operation wherever it shows up. The attestation is
    /// stamped `now`; the record of a grant is stamped `now` and named `id`.
    pub open spec fn grant_step(
        &self,
        input: GrantInputView,
        now: Timestamp,
        id: uuid::Uuid,
    ) -> GrantStepView {
        match input {
            GrantInputView::Start { user_id } => GrantStepView::VerifyAge { user_id },
            GrantInputView::AgeVerified { user_id, answer } => match answer {
                Err(reason) => GrantStepView::Done(Err(ConsentErrorView::ProviderError(reason))),
                Ok(age) => if age < self.min_age() {
                    GrantStepView::Done(Err(ConsentErrorView::AgeRequirementNotMet(age)))
                } else {
                    GrantStepView::CheckDiscipline { user_id, age }
                },
            },
            GrantInputView::DisciplineChecked { user_id, age, answer } => if age < self.min_age() {
                GrantStepView::Done(Err(ConsentErrorView::AgeRequirementNotMet(age)))
            } else {
                match answer {
                    Err(reason) => GrantStepView::Done(
                        Err(ConsentErrorView::DisciplineIneligible(reason)),
                    ),
                    Ok(discipline_proof) => GrantStepView::RecordConsent {
                        attestation: ConsentAttestationView {
                            user_id,
                            age,
                            discipline_proof,
                            timestamp: now,
                        },
                    },
                }
            },
            GrantInputView::Recorded { attestation, answer } => if attestation.age
                < self.min_age() {
                GrantStepView::Done(Err(ConsentErrorView::AgeRequirementNotMet(attestation.age)))
            } else {
                match answer {
                    Err(reason) => GrantStepView::Done(
                        Err(ConsentErrorView::BlockchainError(reason)),
                    ),
                    Ok(tx_hash) => GrantStepView::Done(
                        Ok(granted_record(attestation, tx_hash, now, id)),
                    ),
                }
            },
        }
    }

    /// The transition function of verifying a consent proof.
    ///
    /// A record that does not read as active at `now` refuses the proof
    /// without a digest being asked for. For one that does, the digest of
    /// [`proof_preimage`] is asked for, and the proof is accepted exactly if
    /// it is that digest.
    pub open spec fn verify_step(&self, input: VerifyInputView, now: Timestamp) -> VerifyStepView {
        match input {
            VerifyInputView::Start { user_id, proof } => VerifyStepView::FetchRecord {
                user_id,
                proof,
            },
            VerifyInputView::RecordFetched { proof, answer } => match answer {
                Err(reason) => VerifyStepView::Done(Err(ConsentErrorView::BlockchainError(reason))),
                Ok(record) => if record.status_at(now) != ConsentStatus::Active {
                    VerifyStepView::Done(Ok(false))
                } else {
                    VerifyStepView::HashProof {
                        proof,
                        preimage: proof_preimage(record.tx_hash, self.min_age()),
                    }
                },
            },
            VerifyInputView::ProofHashed { proof, digest } => VerifyStepView::Done(
                Ok(proof == digest),
            ),
        }
    }

    /// The transition function of revoking consent.
    pub open spec fn revoke_step(&self, input: RevokeInputView) -> RevokeStepView {
        match input {
            RevokeInputView::Start { user_id } => RevokeStepView::Revoke { user_id },
            RevokeInputView::Revoked { answer } => match answer {
                Ok(()) => RevokeStepView::Done(Ok(())),
                Err(reason) => RevokeStepView::Done(Err(ConsentErrorView::BlockchainError(reason))),
            },
        }
    }

    /// The step after the provider's answer to the age question.
    fn after_age(&self, user_id: String, answer: Result<u8, String>) -> (step: GrantStep)
        ensures
            forall|now: Timestamp, id: uuid::Uuid|
                step@ == #[trigger] self.grant_step(
                    GrantInputView::AgeVerified { user_id: user_id@, answer: answer_view(answer) },
                    now,
                    id,
                ),
    {
        match answer {
            Err(reason) => GrantStep::Done(Err(ConsentError::ProviderError(reason))),
            Ok(age) => if age < self.min_age {
                GrantStep::Done(Err(ConsentError::AgeRequirementNotMet(age)))
            } else {
                GrantStep::CheckDiscipline { user_id, age }
            },
        }
    }

    /// The step after the provider's answer to the discipline question.
    fn after_discipline(
        &self,
        user_id: String,
        age: u8,
        answer: Result<String, String>,
        now: Timestamp,
    ) -> (step: GrantStep)
        ensures
            forall|id: uuid::Uuid|
                step@ == #[trigger] self.grant_step(
                    GrantInputView::DisciplineChecked {
                        user_id: user_id@,
                        age,
                        answer: text_answer_view(answer),
                    },
                    now,
                    id,
                ),
    {
        if age < self.min_age {
            return GrantStep::Done(Err(ConsentError::AgeRequirementNotMet(age)));
        }
        match answer {
            Err(reason) => GrantStep::Done(Err(ConsentError::DisciplineIneligible(reason))),
            Ok(discipline_proof) => GrantStep::RecordConsent {
                attestation: ConsentAttestation { user_id, age, discipline_proof, timestamp: now },
            },
        }
    }

    /// The step after the ledger's answer to the submission.
    fn after_submission(
        &self,
        attestation: ConsentAttestation,
        answer: Result<String, String>,
        now: Timestamp,
        id: uuid::Uuid,
    ) -> (step: GrantStep)
        ensures
            step@ == self.grant_step(
                GrantInputView::Recorded {
                    attestation: attestation@,
                    answer: text_answer_view(answer),
                },
                now,
                id,
            ),
    {
        if attestation.age < self.min_age {
            return GrantStep::Done(Err(ConsentError::AgeRequirementNotMet(attestation.age)));
        }
        match answer {
            Err(reason) => GrantStep::Done(Err(ConsentError::BlockchainError(reason))),
            Ok(tx_hash) => {
                let mut age_text = String::from_str("age:");
                push_decimal(&mut age_text, attestation.age);
                GrantStep::Done(
                    Ok(
                        ConsentRecord {
                            id,
                            user_id: attestation.user_id,
                            status: ConsentStatus::Active,
                            granted_at: now,
                            expires_at: None,
                            revoked_at: None,
                            tx_hash,
                            age_proof: age_text,
                            discipline_proof: attestation.discipline_proof,
                        },
                    ),
                )
            },
        }
    }

    /// Takes one step of granting consent, with the clock reading and the
    /// record identifier given by the caller.
    pub fn advance_grant(&self, input: GrantInput, now: Timestamp, id: uuid::Uuid) -> (step:
        GrantStep)
        ensures
            step@ == self.grant_step(input@, now, id),
    {
        match input {
            GrantInput::Start { user_id } => GrantStep::VerifyAge { user_id },
            GrantInput::AgeVerified { user_id, answer } => self.after_age(user_id, answer),
            GrantInput::DisciplineChecked { user_id, age, answer } => self.after_discipline(
                user_id,
                age,
                answer,
                now,
            ),
            GrantInput::Recorded { attestation, answer } => self.after_submission(
                attestation,
                answer,
                now,
                id,
            ),
        }
    }

    /// Takes one step of granting consent.
    ///
    /// The step is the one [`Self::grant_step`] gives for the clock reading
    /// taken when an attestation or a record is made, and for the identifier
    /// drawn for a record.
    pub fn request_consent(&self, input: GrantInput) -> (step: GrantStep)
        ensures
            exists|now: Timestamp, id: uuid::Uuid|
                step@ == #[trigger] self.grant_step(input@, now, id),
    {
        let ghost any_time = Timestamp { secs: 0, nanos: 0 };
        let ghost any_id: uuid::Uuid = arbitrary();
        match input {
            GrantInput::Start { user_id } => {
                let step = GrantStep::VerifyAge { user_id };
                assert(step@ == self.grant_step(input@, any_time, any_id));
                step
            },
            GrantInput::AgeVerified { user_id, answer } => {
                let step = self.after_age(user_id, answer);
                assert(step@ == self.grant_step(input@, any_time, any_id));
                step
            },
            GrantInput::DisciplineChecked { user_id, age, answer } => {
                let reading = now();
                let step = self.after_discipline(user_id, age, answer, reading);
                assert(step@ == self.grant_step(input@, reading, any_id));
                step
            },
            GrantInput::Recorded { attestation, answer } => {
                let reading = now();
                let id = fresh_id();
                let step = self.after_submission(attestation, answer, reading, id);
                assert(step@ == self.grant_step(input@, reading, id));
                step
            },
        }
    }

    /// The text whose digest is the consent proof of the grant recorded under
    /// `tx_hash`.
    pub fn proof_preimage(&self, tx_hash: &str) -> (preimage: String)
        ensures
            preimage@ == proof_preimage(tx_hash@, self.min_age()),
    {
        let mut preimage = String::from_str(tx_hash);
        proof {
            reveal_strlit(":");
            assert(":"@ =~= seq![':']);
        }
        preimage.append(":");
        push_decimal(&mut preimage, self.min_age);
        preimage
    }

    /// Takes one step of verifying a consent proof, with the clock reading
    /// given by the caller.
    pub fn advance_verification(&self, input: VerifyInput, now: Timestamp) -> (step: VerifyStep)
        ensures
            step@ == self.verify_step(input@, now),
    {
        match input {
            VerifyInput::Start { user_id, proof } => VerifyStep::FetchRecord { user_id, proof },
            VerifyInput::RecordFetched { proof, answer } => match answer {
                Err(reason) => VerifyStep::Done(Err(ConsentError::BlockchainError(reason))),
                Ok(record) => match record.status_at(&now) {
                    ConsentStatus::Active => {
                        let preimage = self.proof_preimage(record.tx_hash.as_str());
                        VerifyStep::HashProof { proof, preimage }
                    },
                    _ => VerifyStep::Done(Ok(false)),
                },
            },
            VerifyInput::ProofHashed { proof, digest } => VerifyStep::Done(Ok(proof == digest)),
        }
    }

    /// Takes one step of verifying a consent proof.
    ///
    /// The step is the one [`Self::verify_step`] gives for the clock reading
    /// taken when a record is judged.
    pub fn verify_consent(&self, input: VerifyInput) -> (step: VerifyStep)
        ensures
            exists|now: Timestamp| step@ == #[trigger] self.verify_step(input@, now),
    {
        let reading = match &input {
            VerifyInput::RecordFetched { .. } => now(),
            _ => Timestamp { secs: 0, nanos: 0 },
        };
        let step = self.advance_verification(input, reading);
        assert(step@ == self.verify_step(input@, reading));
        step
    }

    /// Takes one step of revoking consent.
    pub fn revoke_consent(&self, input: RevokeInput) -> (step: RevokeStep)
        ensures
            step@ == self.revoke_step(input@),
    {
        match input {
            RevokeInput::Start { user_id } => RevokeStep::Revoke { user_id },
            RevokeInput::Revoked { answer } => match answer {
                Ok(()) => RevokeStep::Done(Ok(())),
                Err(reason) => RevokeStep::Done(Err(ConsentError::BlockchainError(reason))),
            },
        }
    }
}

impl GrantInputView {
    /// How far the grant has come with this input: the number of answers
    /// that have been given.
    pub open spec fn stage(self) -> nat {
        match self {
            GrantInputView::Start { .. } => 0,
            GrantInputView::AgeVerified { .. } => 1,
            GrantInputView::DisciplineChecked { .. } => 2,
            GrantInputView::Recorded { .. } => 3,
        }
    }

    /// The age that the input carries, if it carries one.
    pub open spec fn age(self) -> Option<u8> {
        match self {
            GrantInputView::Start { .. } => None,
            GrantInputView::AgeVerified { answer, .. } => match answer {
                Ok(age) => Some(age),
                Err(_) => None,
            },
            GrantInputView::DisciplineChecked { age, .. } => Some(age),
            GrantInputView::Recorded { attestation, .. } => Some(attestation.age),
        }
    }
}

impl GrantStepView {
    /// The stage of the input that answers this step; past every input where
    /// the grant has ended.
    pub open spec fn stage(self) -> nat {
        match self {
            GrantStepView::VerifyAge { .. } => 1,
            GrantStepView::CheckDiscipline { .. } => 2,
            GrantStepView::RecordConsent { .. } => 3,
            GrantStepView::Done(_) => 4,
        }
    }
}

impl VerifyInputView {
    /// How far the verification has come with this input.
    pub open spec fn stage(self) -> nat {
        match self {
            VerifyInputView::Start { .. } => 0,
            VerifyInputView::RecordFetched { .. } => 1,
            VerifyInputView::ProofHashed { .. } => 2,
        }
    }
}

impl VerifyStepView {
    /// The stage of the input that answers this step; past every input where
    /// the verification has ended.
    pub open spec fn stage(self) -> nat {
        match self {
            VerifyStepView::FetchRecord { .. } => 1,
            VerifyStepView::HashProof { .. } => 2,
            VerifyStepView::Done(_) => 3,
        }
    }
}

/// Every step of a grant or of a verification leads on: the step asks for
/// an answer of a later stage than the input it was taken on, or ends the
/// operation. A grant is over after four steps at most, a verification after
/// three.
pub proof fn law_operations_lead_on(
    engine: ConsentEngine,
    grant: GrantInputView,
    verification: VerifyInputView,
    now: Timestamp,
    id: uuid::Uuid,
)
    ensures
        grant.stage() < engine.grant_step(grant, now, id).stage() <= 4,
        verification.stage() < engine.verify_step(verification, now).stage() <= 3,
{
}

/// An age below the minimum ends the grant with the age rejection, at
/// whatever point of the operation it shows up. The next step is then never
/// the discipline question and never the submission to the ledger.
pub proof fn law_underage_is_rejected(
    engine: ConsentEngine,
    input: GrantInputView,
    now: Timestamp,
    id: uuid::Uuid,
)
    requires
        input.age() matches Some(age) && age < engine.min_age(),
    ensures
        engine.grant_step(input, now, id) == GrantStepView::Done(
            Err(ConsentErrorView::AgeRequirementNotMet(input.age().unwrap())),
        ),
{
}

/// The discipline question is asked only of a user whose verified age has
/// reached the minimum, and an attestation is submitted only for such a user.
pub proof fn law_questions_follow_the_age_check(
    engine: ConsentEngine,
    input: GrantInputView,
    now: Timestamp,
    id: uuid::Uuid,
)
    ensures
        engine.grant_step(input, now, id) matches GrantStepView::CheckDiscipline { age, .. }
            ==> age >= engine.min_age(),
        engine.grant_step(input, now, id) matches GrantStepView::RecordConsent { attestation }
            ==> attestation.age >= engine.min_age(),
{
}

/// A grant ends well only on the ledger's transaction reference, and the
/// record it returns is active, unrevoked and without expiry, names the
/// attested user, encodes the attested age, and carries that reference. Where
/// the reference is not empty the record meets the invariant of records.
pub proof fn law_granted_record_is_active(
    engine: ConsentEngine,
    input: GrantInputView,
    now: Timestamp,
    id: uuid::Uuid,
)
    requires
        engine.grant_step(input, now, id) matches GrantStepView::Done(Ok(_)),
    ensures
        input matches GrantInputView::Recorded { attestation, answer: Ok(tx_hash) } && ({
            let record = engine.grant_step(input, now, id)->Done_0->Ok_0;
            &&& attestation.age >= engine.min_age()
            &&& record.status == ConsentStatus::Active
            &&& record.revoked_at is None
            &&& record.expires_at is None
            &&& record.status_at(now) == ConsentStatus::Active
            &&& record.user_id == attestation.user_id
            &&& record.age_proof == age_proof(attestation.age)
            &&& record.tx_hash == tx_hash
            &&& tx_hash.len() > 0 ==> record.well_formed()
        }),
{
}

/// A record that is not active, or whose expiry has passed, refuses every
/// proof with `false` and without an error, and no digest is asked for.
pub proof fn law_inactive_record_refuses(
    engine: ConsentEngine,
    proof: Seq<char>,
    record: ConsentRecordView,
    now: Timestamp,
)
    requires
        record.status != ConsentStatus::Active || record.lapsed_at(now),
    ensures
        engine.verify_step(VerifyInputView::RecordFetched { proof, answer: Ok(record) }, now)
            == VerifyStepView::Done(Ok(false)),
{
}

/// For a record that reads as active, the digest asked for is that of the
/// preimage of the record's transaction reference and the engine's minimum
/// age, and the proof is accepted exactly if it equals the digest handed
/// back.
pub proof fn law_proof_is_the_digest(
    engine: ConsentEngine,
    proof: Seq<char>,
    record: ConsentRecordView,
    digest: Seq<char>,
    now: Timestamp,
)
    requires
        record.status_at(now) == ConsentStatus::Active,
    ensures
        engine.verify_step(VerifyInputView::RecordFetched { proof, answer: Ok(record) }, now)
            == (VerifyStepView::HashProof {
            proof,
            preimage: proof_preimage(record.tx_hash, engine.min_age()),
        }),
        engine.verify_step(VerifyInputView::ProofHashed { proof, digest }, now)
            == VerifyStepView::Done(Ok(proof == digest)),
{
}

/// The colon is not a digit.
proof fn lemma_colon_is_no_digit()
    ensures
        !is_digit(':'),
{
    assert forall|d: nat| d < 10 implies #[trigger] digit_char(d) != ':' by {}
}

/// The preimage binds the proof to the grant and to the policy: two
/// preimages are the same text only if they were made from the same
/// transaction reference and the same minimum age.
pub proof fn law_preimage_binds_grant_and_policy(
    tx_a: Seq<char>,
    min_age_a: u8,
    tx_b: Seq<char>,
    min_age_b: u8,
)
    requires
        proof_preimage(tx_a, min_age_a) == proof_preimage(tx_b, min_age_b),
    ensures
        tx_a == tx_b,
        min_age_a == min_age_b,
{
    let digits_a = decimal(min_age_a as nat);
    let digits_b = decimal(min_age_b as nat);
    let text_a = proof_preimage(tx_a, min_age_a);
    let text_b = proof_preimage(tx_b, min_age_b);
    lemma_decimal_shape(min_age_a as nat);
    lemma_decimal_shape(min_age_b as nat);
    lemma_colon_is_no_digit();
    assert(text_a.len() == tx_a.len() + 1 + digits_a.len());
    assert(text_b.len() == tx_b.len() + 1 + digits_b.len());
    if tx_a.len() > tx_b.len() {
        let at = tx_a.len() as int;
        assert(text_a[at] == ':');
        assert(text_b[at] == digits_b[at - tx_b.len() - 1]);
        assert(is_digit(digits_b[at - tx_b.len() - 1]));
    } else if tx_b.len() > tx_a.len() {
        let at = tx_b.len() as int;
        assert(text_b[at] == ':');
        assert(text_a[at] == digits_a[at - tx_a.len() - 1]);
        assert(is_digit(digits_a[at - tx_a.len() - 1]));
    } else {
        let n = tx_a.len() as int;
        assert(tx_a =~= text_a.subrange(0, n));
        assert(tx_b =~= text_b.subrange(0, n));
        assert(digits_a =~= text_a.subrange(n + 1, text_a.len() as int));
        assert(digits_b =~= text_b.subrange(n + 1, text_b.len() as int));
        lemma_decimal_injective(min_age_a as nat, min_age_b as nat);
    }
}

} // verus!
