//! The consent data model: the status of a consent, the record the ledger
//! keeps of it, the attestation that asks for it, and the reasons for which
//! a consent operation fails.

use vstd::prelude::*;
use vstd::string::*;
use crate::text::{decimal, optional_text, push_decimal};
use crate::time::{render_utc, utc_text, Timestamp};

verus! {

/// Where a consent stands.
///
/// A consent is written to the ledger as `Pending`, `Active` or `Revoked`.
/// `Expired` is never written: it is what an `Active` consent reads as once
/// its expiry has passed (see [`ConsentRecordView::status_at`]).
#[derive(Debug, Clone, Copy, PartialEq, Eq, Structural)]
pub enum ConsentStatus {
    /// Consent granted and active.
    Active,
    /// Consent pending verification.
    Pending,
    /// Consent revoked by the user.
    Revoked,
    /// Consent expired.
    Expired,
}

impl ConsentStatus {
    /// Whether the ledger may move a consent from `self` to `next`: a pending
    /// consent becomes active, an active one is revoked, and nothing leaves
    /// `Revoked`.
    pub open spec fn may_become(self, next: ConsentStatus) -> bool {
        ||| self == ConsentStatus::Pending && next == ConsentStatus::Active
        ||| self == ConsentStatus::Active && next == ConsentStatus::Revoked
    }
}

/// A revoked consent stays revoked, and no consent is ever written down as
/// expired.
pub proof fn law_revoked_is_terminal(from: ConsentStatus, next: ConsentStatus)
    ensures
        !ConsentStatus::Revoked.may_become(next),
        !from.may_become(ConsentStatus::Expired),
        from.may_become(ConsentStatus::Active) ==> from == ConsentStatus::Pending,
{
}

/// The ledger's record of one user's consent.
#[derive(Debug, Clone)]
pub struct ConsentRecord {
    /// Unique consent identifier.
    pub id: uuid::Uuid,
    /// User identifier.
    pub user_id: String,
    /// Status as written to the ledger.
    pub status: ConsentStatus,
    /// When consent was granted.
    pub granted_at: Timestamp,
    /// When the consent lapses, if it does.
    pub expires_at: Option<Timestamp>,
    /// When the consent was revoked, if it was.
    pub revoked_at: Option<Timestamp>,
    /// Reference of the ledger transaction that granted the consent.
    pub tx_hash: String,
    /// Age verification proof.
    pub age_proof: String,
    /// Discipline eligibility proof.
    pub discipline_proof: String,
}

/// What a [`ConsentRecord`] holds, with its texts as sequences of characters.
pub struct ConsentRecordView {
    pub id: uuid::Uuid,
    pub user_id: Seq<char>,
    pub status: ConsentStatus,
    pub granted_at: Timestamp,
    pub expires_at: Option<Timestamp>,
    pub revoked_at: Option<Timestamp>,
    pub tx_hash: Seq<char>,
    pub age_proof: Seq<char>,
    pub discipline_proof: Seq<char>,
}

impl View for ConsentRecord {
    type V = ConsentRecordView;

    open spec fn view(&self) -> ConsentRecordView {
        ConsentRecordView {
            id: self.id,
            user_id: self.user_id@,
            status: self.status,
            granted_at: self.granted_at,
            expires_at: self.expires_at,
            revoked_at: self.revoked_at,
            tx_hash: self.tx_hash@,
            age_proof: self.age_proof@,
            discipline_proof: self.discipline_proof@,
        }
    }
}

impl ConsentRecordView {
    /// The invariant of a record: a revocation time is set exactly when the
    /// record is revoked, and every record that has been active carries the
    /// reference of the transaction that made it so.
    pub open spec fn well_formed(self) -> bool {
        &&& self.revoked_at is Some <==> self.status == ConsentStatus::Revoked
        &&& self.status != ConsentStatus::Pending ==> self.tx_hash.len() > 0
    }

    /// Whether the record's expiry is set and lies before `now`.
    pub open spec fn lapsed_at(self, now: Timestamp) -> bool {
        self.expires_at matches Some(expiry) && now.later_than(expiry)
    }

    /// The status the record reads as at `now`: the written status, except
    /// that an active record whose expiry has passed reads as expired.
    pub open spec fn status_at(self, now: Timestamp) -> ConsentStatus {
        if self.status == ConsentStatus::Active && self.lapsed_at(now) {
            ConsentStatus::Expired
        } else {
            self.status
        }
    }
}

impl ConsentRecord {
    /// Whether the record meets the invariant of records.
    pub fn is_well_formed(&self) -> (ok: bool)
        ensures
            ok == self@.well_formed(),
    {
        let revoked = match self.status {
            ConsentStatus::Revoked => true,
            _ => false,
        };
        let pending = match self.status {
            ConsentStatus::Pending => true,
            _ => false,
        };
        self.revoked_at.is_some() == revoked && (pending || !self.tx_hash.as_str().is_empty())
    }

    /// The status the record reads as at `now`.
    pub fn status_at(&self, now: &Timestamp) -> (status: ConsentStatus)
        ensures
            status == self@.status_at(*now),
    {
        match self.status {
            ConsentStatus::Active => match &self.expires_at {
                Some(expiry) => if now.is_after(expiry) {
                    ConsentStatus::Expired
                } else {
                    ConsentStatus::Active
                },
                None => ConsentStatus::Active,
            },
            other => other,
        }
    }
}

/// The claim submitted to the ledger when consent is granted.
#[derive(Debug, Clone)]
pub struct ConsentAttestation {
    /// User identifier.
    pub user_id: String,
    /// Verified age of the user.
    pub age: u8,
    /// Discipline eligibility proof.
    pub discipline_proof: String,
    /// When the attestation was made.
    pub timestamp: Timestamp,
}

/// What a [`ConsentAttestation`] holds.
pub struct ConsentAttestationView {
    pub user_id: Seq<char>,
    pub age: u8,
    pub discipline_proof: Seq<char>,
    pub timestamp: Timestamp,
}

impl View for ConsentAttestation {
    type V = ConsentAttestationView;

    open spec fn view(&self) -> ConsentAttestationView {
        ConsentAttestationView {
            user_id: self.user_id@,
            age: self.age,
            discipline_proof: self.discipline_proof@,
            timestamp: self.timestamp,
        }
    }
}

/// Why a consent operation failed.
#[derive(Debug, Clone)]
pub enum ConsentError {
    /// The user does not meet the age requirement.
    AgeRequirementNotMet(u8),
    /// The discipline eligibility check failed.
    DisciplineIneligible(String),
    /// The consent has been revoked.
    ConsentRevoked(Timestamp),
    /// Attestation verification failed.
    AttestationInvalid(String),
    /// The identity provider failed.
    ProviderError(String),
    /// The ledger failed.
    BlockchainError(String),
}

/// What a [`ConsentError`] holds.
pub enum ConsentErrorView {
    AgeRequirementNotMet(u8),
    DisciplineIneligible(Seq<char>),
    ConsentRevoked(Timestamp),
    AttestationInvalid(Seq<char>),
    ProviderError(Seq<char>),
    BlockchainError(Seq<char>),
}

impl View for ConsentError {
    type V = ConsentErrorView;

    open spec fn view(&self) -> ConsentErrorView {
        match self {
            ConsentError::AgeRequirementNotMet(age) => ConsentErrorView::AgeRequirementNotMet(*age),
            ConsentError::DisciplineIneligible(reason) => ConsentErrorView::DisciplineIneligible(
                reason@,
            ),
            ConsentError::ConsentRevoked(at) => ConsentErrorView::ConsentRevoked(*at),
            ConsentError::AttestationInvalid(reason) => ConsentErrorView::AttestationInvalid(
                reason@,
            ),
            ConsentError::ProviderError(reason) => ConsentErrorView::ProviderError(reason@),
            ConsentError::BlockchainError(reason) => ConsentErrorView::BlockchainError(reason@),
        }
    }
}

/// The text that reports a revocation, given the date and time of the
/// revocation in print. Where there is no date and time in print, the text
/// ends after its opening words.
pub open spec fn revocation_text(printed: Option<Seq<char>>) -> Seq<char> {
    "consent revoked at "@ + (match printed {
        Some(date_and_time) => date_and_time,
        None => Seq::empty(),
    })
}

/// The text that reports a revocation, given the date and time of the
/// revocation in print.
pub fn revocation_message(printed: Option<String>) -> (text: String)
    ensures
        text@ == revocation_text(optional_text(printed)),
{
    let mut text = String::from_str("consent revoked at ");
    match printed {
        Some(date_and_time) => {
            text.append(date_and_time.as_str());
        },
        None => {
            assert(text@ + Seq::<char>::empty() =~= text@);
        },
    }
    text
}

impl ConsentErrorView {
    /// The text that reports the error to a person.
    ///
    /// A revocation is reported with the date and time as `chrono` prints
    /// them ([`utc_text`]); an instant that `chrono` has no date for is left
    /// out of the text.
    pub open spec fn message(self) -> Seq<char> {
        match self {
            ConsentErrorView::AgeRequirementNotMet(age) => "age requirement not met: user is "@
                + decimal(age as nat) + " years old, minimum is 21"@,
            ConsentErrorView::DisciplineIneligible(reason) => "discipline eligibility failed: "@
                + reason,
            ConsentErrorView::ConsentRevoked(at) => revocation_text(
                utc_text(at.secs as int, at.nanos as int),
            ),
            ConsentErrorView::AttestationInvalid(reason) => "attestation verification failed: "@
                + reason,
            ConsentErrorView::ProviderError(reason) => "provider error: "@ + reason,
            ConsentErrorView::BlockchainError(reason) => "blockchain error: "@ + reason,
        }
    }
}

impl ConsentError {
    /// The text that reports the error to a person.
    pub fn message(&self) -> (text: String)
        ensures
            text@ == self@.message(),
    {
        match self {
            ConsentError::AgeRequirementNotMet(age) => {
                let mut text = String::from_str("age requirement not met: user is ");
                push_decimal(&mut text, *age);
                text.append(" years old, minimum is 21");
                text
            },
            ConsentError::DisciplineIneligible(reason) => {
                let mut text = String::from_str("discipline eligibility failed: ");
                text.append(reason.as_str());
                text
            },
            ConsentError::ConsentRevoked(at) => revocation_message(render_utc(at)),
            ConsentError::AttestationInvalid(reason) => {
                let mut text = String::from_str("attestation verification failed: ");
                text.append(reason.as_str());
                text
            },
            ConsentError::ProviderError(reason) => {
                let mut text = String::from_str("provider error: ");
                text.append(reason.as_str());
                text
            },
            ConsentError::BlockchainError(reason) => {
                let mut text = String::from_str("blockchain error: ");
                text.append(reason.as_str());
                text
            },
        }
    }
}

} // verus!
