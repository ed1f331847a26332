//! A signaling hub for WebRTC-style offer/answer exchange.
//!
//! Two parties negotiate a peer connection through a shared intermediary: the
//! owner of a stream key publishes an offer, another party publishes an answer
//! against that exact offer, and the owner finally consumes the answer, which
//! archives the answer's restream credential and resets the round. The hub
//! enforces who may read or write which field of a session record, under what
//! optimistic-concurrency conditions, and how state resets between rounds.

mod errors;
mod hub;
mod laws;
mod machine;
mod policy;
mod records;

pub use errors::HubError;
pub use hub::{lookup, WebRTCHub};
pub use laws::{answer_ownership_separate, lemma_consume_optimistic_lock, lemma_first_answer_wins,
    lemma_history_append_only, lemma_no_self_answer, lemma_no_self_answer_stored,
    lemma_owner_immutable, lemma_round_reset};
pub use machine::{answer_step, consume_answer, consume_step, fresh_record, offer_step,
    opt_record_view, publish_answer, publish_offer};
pub use policy::{answer_belongs_to, is_owner, is_self_answer, spec_answer_belongs_to,
    spec_is_owner, spec_is_self_answer};
pub use records::{AccountId, Answer, AnswerView, EncryptedSecretKey, Stream, StreamInfo,
    StreamInfoView, StreamKey};
