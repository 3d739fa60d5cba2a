//! A stand-in for the ledger.

use vstd::prelude::*;
use vstd::string::*;
use crate::consent::{ConsentAttestation, ConsentRecord, ConsentRecordView, ConsentStatus};
use crate::foreign::fresh_id;
use crate::time::{now, Timestamp};

verus! {

/// The record the stand-in ledger holds of `user_id`: an active consent,
/// granted `now` under the name `id`, that never lapses.
pub open spec fn standing_record(
    user_id: Seq<char>,
    now: Timestamp,
    id: uuid::Uuid,
) -> ConsentRecordView {
    ConsentRecordView {
        id,
        user_id,
        status: ConsentStatus::Active,
        granted_at: now,
        expires_at: None,
        revoked_at: None,
        tx_hash: "mock-tx-hash"@,
        age_proof: "age:25"@,
        discipline_proof: "discipline:verified"@,
    }
}

/// The transaction reference the stand-in ledger gives to a submission for
/// `user_id`.
pub open spec fn submission_reference(user_id: Seq<char>) -> Seq<char> {
    "tx-hash-"@ + user_id
}

/// A ledger client that reaches no chain.
///
/// It answers as a ledger would that holds an active consent of every user:
/// every lookup finds such a record, every submission is given a reference,
/// and every revocation is accepted. It remembers nothing.
#[derive(Debug, Clone)]
pub struct BlockchainClient {
    rpc_endpoint: String,
    address: String,
}

impl BlockchainClient {
    /// The endpoint the client was made for.
    pub closed spec fn endpoint_text(&self) -> Seq<char> {
        self.rpc_endpoint@
    }

    /// The account address the client was made for.
    pub closed spec fn address_text(&self) -> Seq<char> {
        self.address@
    }

    /// Makes a client for the node at `rpc_endpoint` and the account
    /// `address`.
    pub fn new(rpc_endpoint: String, address: String) -> (client: Self)
        ensures
            client.endpoint_text() == rpc_endpoint@,
            client.address_text() == address@,
    {
        BlockchainClient { rpc_endpoint, address }
    }

    /// Makes a client for a node on this machine, for trying things out.
    pub fn mock() -> (client: Self)
        ensures
            client.endpoint_text() == "http://localhost:26657"@,
            client.address_text() == "bostrom18sd2ujv24ual9c9pshtxys6j8knh6xaead9ye7"@,
    {
        BlockchainClient {
            rpc_endpoint: String::from_str("http://localhost:26657"),
            address: String::from_str("bostrom18sd2ujv24ual9c9pshtxys6j8knh6xaead9ye7"),
        }
    }

    /// The endpoint the client was made for.
    pub fn rpc_endpoint(&self) -> (endpoint: &str)
        ensures
            endpoint@ == self.endpoint_text(),
    {
        self.rpc_endpoint.as_str()
    }

    /// The account address the client was made for.
    pub fn address(&self) -> (address: &str)
        ensures
            address@ == self.address_text(),
    {
        self.address.as_str()
    }

    /// The record of `user_id`, granted `now` under the name `id`.
    pub fn standing_record(&self, user_id: &str, now: Timestamp, id: uuid::Uuid) -> (record:
        ConsentRecord)
        ensures
            record@ == standing_record(user_id@, now, id),
    {
        ConsentRecord {
            id,
            user_id: String::from_str(user_id),
            status: ConsentStatus::Active,
            granted_at: now,
            expires_at: None,
            revoked_at: None,
            tx_hash: String::from_str("mock-tx-hash"),
            age_proof: String::from_str("age:25"),
            discipline_proof: String::from_str("discipline:verified"),
        }
    }

    /// Looks up the record of `user_id`. The lookup always succeeds; the
    /// record is stamped with the clock reading of the lookup and named by an
    /// identifier drawn for it.
    pub fn get_consent_record(&self, user_id: &str) -> (answer: Result<ConsentRecord, String>)
        ensures
            answer matches Ok(record) && exists|now: Timestamp, id: uuid::Uuid|
                record@ == #[trigger] standing_record(user_id@, now, id),
    {
        let id = fresh_id();
        let reading = now();
        let record = self.standing_record(user_id, reading, id);
        assert(record@ == standing_record(user_id@, reading, id));
        Ok(record)
    }

    /// Submits `attestation`. The submission always succeeds, with the
    /// reference [`submission_reference`] of the attested user.
    pub fn record_consent(&self, attestation: &ConsentAttestation) -> (answer: Result<
        String,
        String,
    >)
        ensures
            answer matches Ok(reference) && reference@ == submission_reference(
                attestation.user_id@,
            ),
    {
        let mut reference = String::from_str("tx-hash-");
        reference.append(attestation.user_id.as_str());
        Ok(reference)
    }

    /// Revokes the consent of `user_id`. The revocation always succeeds.
    pub fn revoke_consent(&self, user_id: &str) -> (answer: Result<(), String>)
        ensures
            answer is Ok,
    {
        Ok(())
    }
}

/// What the stand-in ledger hands out meets the invariant of records, and
/// the reference it gives to a submission is never empty.
pub proof fn law_standing_record_is_well_formed(
    user_id: Seq<char>,
    now: Timestamp,
    id: uuid::Uuid,
)
    ensures
        standing_record(user_id, now, id).well_formed(),
        standing_record(user_id, now, id).status_at(now) == ConsentStatus::Active,
        submission_reference(user_id).len() > 0,
{
    reveal_strlit("mock-tx-hash");
    reveal_strlit("tx-hash-");
}

} // verus!
