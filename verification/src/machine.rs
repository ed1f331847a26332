use vstd::prelude::*;

use crate::errors::HubError;
use crate::policy::{answer_belongs_to, is_owner, is_self_answer, spec_answer_belongs_to,
    spec_is_owner, spec_is_self_answer};
use crate::records::{AccountId, Answer, AnswerView, EncryptedSecretKey, Stream, StreamInfo,
    StreamInfoView};

verus! {

/// The record that a fresh (`is_new`) offer writes: owned by `caller`, holding
/// `offer`, with no answer and an empty restream history.
pub open spec fn fresh_record(offer: Option<Seq<char>>, caller: Seq<char>) -> StreamInfoView {
    StreamInfoView { owner_id: caller, offer, answer: None, restreams: Seq::empty() }
}

/// The value of an optional borrowed record.
pub open spec fn opt_record_view(prev: Option<&StreamInfo>) -> Option<StreamInfoView> {
    match prev {
        Some(p) => Some(p@),
        None => None,
    }
}

/// What publishing an offer decides and writes, given the prior record for the
/// key (if any).
///
/// With `is_new`, a fresh record replaces any prior one, but only its current
/// owner may reset an existing key. Without `is_new`, the record must exist
/// and belong to the caller; only its `offer` field is replaced.
pub open spec fn offer_step(
    prev: Option<StreamInfoView>,
    offer: Option<Seq<char>>,
    is_new: bool,
    caller: Seq<char>,
) -> Result<StreamInfoView, HubError> {
    if is_new {
        match prev {
            Some(p) => if spec_is_owner(p, caller) {
                Ok(fresh_record(offer, caller))
            } else {
                Err(HubError::Unauthorized)
            },
            None => Ok(fresh_record(offer, caller)),
        }
    } else {
        match prev {
            Some(p) => if spec_is_owner(p, caller) {
                Ok(StreamInfoView { offer, ..p })
            } else {
                Err(HubError::Unauthorized)
            },
            None => Err(HubError::NotFound),
        }
    }
}

/// What publishing an answer decides and writes, given the existing record.
///
/// The caller must not be the record's owner; the asserted `expected_offer`
/// must equal the stored offer exactly. A new answer requires that none is
/// present; a refresh requires a prior answer placed by the same caller.
pub open spec fn answer_step(
    p: StreamInfoView,
    stream: Seq<char>,
    is_new: bool,
    expected_offer: Seq<char>,
    restream_key: Seq<char>,
    caller: Seq<char>,
) -> Result<StreamInfoView, HubError> {
    if spec_is_self_answer(p, caller) {
        Err(HubError::SelfAnswerForbidden)
    } else if p.offer != Some(expected_offer) {
        Err(HubError::OfferMismatch)
    } else if is_new {
        if p.answer is Some {
            Err(HubError::AnswerAlreadyPresent)
        } else {
            Ok(
                StreamInfoView {
                    answer: Some(AnswerView { account_id: caller, stream, restream_key }),
                    ..p
                },
            )
        }
    } else {
        if p.answer is None {
            Err(HubError::MissingPriorAnswer)
        } else if !spec_answer_belongs_to(p, caller) {
            Err(HubError::AnswerOwnerMismatch)
        } else {
            Ok(
                StreamInfoView {
                    answer: Some(AnswerView { account_id: caller, stream, restream_key }),
                    ..p
                },
            )
        }
    }
}

/// What consuming an answer decides and writes, given the existing record.
///
/// Only the owner may consume, and only against an exact snapshot of the
/// current answer. On success the round resets: the answer's restream key is
/// appended to the history, and both `offer` and `answer` are cleared.
pub open spec fn consume_step(
    p: StreamInfoView,
    expected: AnswerView,
    caller: Seq<char>,
) -> Result<StreamInfoView, HubError> {
    if !spec_is_owner(p, caller) {
        Err(HubError::Unauthorized)
    } else if p.answer != Some(expected) {
        Err(HubError::AnswerChanged)
    } else {
        Ok(
            StreamInfoView {
                offer: None,
                answer: None,
                restreams: p.restreams.push(expected.restream_key),
                ..p
            },
        )
    }
}

/// Computes the record that publishing an offer leaves for its key, exactly as
/// [`offer_step`] describes, or the error that aborts the operation.
pub fn publish_offer(
    prev: Option<&StreamInfo>,
    offer: Option<Stream>,
    is_new: bool,
    caller: AccountId,
) -> (r: Result<StreamInfo, HubError>)
    ensures
        match offer_step(opt_record_view(prev), offer.deep_view(), is_new, caller@) {
            Ok(v) => r matches Ok(rec) && rec@ == v,
            Err(e) => r == Err::<StreamInfo, HubError>(e),
        },
{
    if is_new {
        if let Some(p) = prev {
            if !is_owner(p, &caller) {
                return Err(HubError::Unauthorized);
            }
        }
        let ghost offer_v = offer.deep_view();
        let rec = StreamInfo { owner_id: caller, offer, answer: None, restreams: Vec::new() };
        proof {
            assert(rec@ =~= fresh_record(offer_v, rec.owner_id@));
        }
        Ok(rec)
    } else {
        match prev {
            Some(p) => {
                if !is_owner(p, &caller) {
                    return Err(HubError::Unauthorized);
                }
                let mut rec = p.duplicate();
                rec.offer = offer;
                Ok(rec)
            },
            None => Err(HubError::NotFound),
        }
    }
}

/// Computes the record that publishing an answer leaves for its key, exactly
/// as [`answer_step`] describes, or the error that aborts the operation.
pub fn publish_answer(
    p: &StreamInfo,
    stream: Stream,
    is_new: bool,
    expected_offer: Stream,
    restream_key: EncryptedSecretKey,
    caller: AccountId,
) -> (r: Result<StreamInfo, HubError>)
    ensures
        match answer_step(p@, stream@, is_new, expected_offer@, restream_key@, caller@) {
            Ok(v) => r matches Ok(rec) && rec@ == v,
            Err(e) => r == Err::<StreamInfo, HubError>(e),
        },
{
    if is_self_answer(p, &caller) {
        return Err(HubError::SelfAnswerForbidden);
    }
    let offer_matches = match &p.offer {
        Some(o) => *o == expected_offer,
        None => false,
    };
    if !offer_matches {
        return Err(HubError::OfferMismatch);
    }
    if is_new {
        if p.answer.is_some() {
            return Err(HubError::AnswerAlreadyPresent);
        }
    } else {
        if p.answer.is_none() {
            return Err(HubError::MissingPriorAnswer);
        }
        if !answer_belongs_to(p, &caller) {
            return Err(HubError::AnswerOwnerMismatch);
        }
    }
    let mut rec = p.duplicate();
    rec.answer = Some(Answer { account_id: caller, stream, restream_key });
    Ok(rec)
}

/// Computes the record that consuming an answer leaves for its key, exactly as
/// [`consume_step`] describes, or the error that aborts the operation.
pub fn consume_answer(p: &StreamInfo, expected: Answer, caller: AccountId) -> (r: Result<
    StreamInfo,
    HubError,
>)
    ensures
        match consume_step(p@, expected@, caller@) {
            Ok(v) => r matches Ok(rec) && rec@ == v,
            Err(e) => r == Err::<StreamInfo, HubError>(e),
        },
{
    if !is_owner(p, &caller) {
        return Err(HubError::Unauthorized);
    }
    let answer_matches = match &p.answer {
        Some(a) => a.same_as(&expected),
        None => false,
    };
    if !answer_matches {
        return Err(HubError::AnswerChanged);
    }
    let mut rec = p.duplicate();
    let ghost expected_v = expected@;
    let Answer { account_id: _, stream: _, restream_key } = expected;
    rec.restreams.push(restream_key);
    rec.offer = None;
    rec.answer = None;
    proof {
        assert(rec.restreams.deep_view() =~= p@.restreams.push(expected_v.restream_key));
    }
    Ok(rec)
}

} // verus!
