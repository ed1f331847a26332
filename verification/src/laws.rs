use vstd::prelude::*;

use crate::errors::HubError;
use crate::machine::{answer_step, consume_step, offer_step};
use crate::policy::{spec_is_owner, spec_is_self_answer};
use crate::records::{AnswerView, StreamInfoView};

verus! {

/// Ownership immutability: once a record exists, no successful transition
/// changes its `owner_id` — not even an owner's `is_new` reset, which may only
/// be performed by the owner itself.
pub proof fn lemma_owner_immutable(
    p: StreamInfoView,
    offer: Option<Seq<char>>,
    is_new: bool,
    stream: Seq<char>,
    expected_offer: Seq<char>,
    restream_key: Seq<char>,
    expected: AnswerView,
    caller: Seq<char>,
)
    ensures
        offer_step(Some(p), offer, is_new, caller) matches Ok(v) ==> v.owner_id == p.owner_id,
        answer_step(p, stream, is_new, expected_offer, restream_key, caller) matches Ok(v)
            ==> v.owner_id == p.owner_id,
        consume_step(p, expected, caller) matches Ok(v) ==> v.owner_id == p.owner_id,
{
}

/// No self-answer: whoever owns the record is refused with
/// `SelfAnswerForbidden`, regardless of every other parameter.
pub proof fn lemma_no_self_answer(
    p: StreamInfoView,
    stream: Seq<char>,
    is_new: bool,
    expected_offer: Seq<char>,
    restream_key: Seq<char>,
    caller: Seq<char>,
)
    requires
        spec_is_self_answer(p, caller),
    ensures
        answer_step(p, stream, is_new, expected_offer, restream_key, caller) == Err::<
            StreamInfoView,
            HubError,
        >(HubError::SelfAnswerForbidden),
{
}

/// First answer wins: once a new answer has been accepted for a round, no
/// further new answer succeeds in that round, and one that passes the earlier
/// checks (a caller other than the owner, asserting the current offer) is
/// refused exactly with `AnswerAlreadyPresent`.
pub proof fn lemma_first_answer_wins(
    p: StreamInfoView,
    stream: Seq<char>,
    expected_offer: Seq<char>,
    restream_key: Seq<char>,
    caller: Seq<char>,
    stream2: Seq<char>,
    expected_offer2: Seq<char>,
    restream_key2: Seq<char>,
    caller2: Seq<char>,
)
    requires
        answer_step(p, stream, true, expected_offer, restream_key, caller) is Ok,
    ensures
        ({
            let next = answer_step(p, stream, true, expected_offer, restream_key, caller)->Ok_0;
            &&& !(answer_step(next, stream2, true, expected_offer2, restream_key2, caller2) is Ok)
            &&& caller2 != next.owner_id && next.offer == Some(expected_offer2) ==> answer_step(
                next,
                stream2,
                true,
                expected_offer2,
                restream_key2,
                caller2,
            ) == Err::<StreamInfoView, HubError>(HubError::AnswerAlreadyPresent)
        }),
{
}

/// Optimistic lock on consume: with the owner calling, consuming succeeds
/// exactly when the expected snapshot equals the current answer — any field
/// difference, or a missing answer, is refused with `AnswerChanged`.
pub proof fn lemma_consume_optimistic_lock(
    p: StreamInfoView,
    expected: AnswerView,
    caller: Seq<char>,
)
    requires
        spec_is_owner(p, caller),
    ensures
        consume_step(p, expected, caller) is Ok <==> p.answer == Some(expected),
        p.answer != Some(expected) ==> consume_step(p, expected, caller) == Err::<
            StreamInfoView,
            HubError,
        >(HubError::AnswerChanged),
{
}

/// History append-only: replacing an offer in place and publishing an answer
/// leave the restream history untouched, and a successful consume appends
/// exactly the expected answer's restream key, so the stored history is always
/// a prefix of the new one.
pub proof fn lemma_history_append_only(
    p: StreamInfoView,
    offer: Option<Seq<char>>,
    stream: Seq<char>,
    is_new: bool,
    expected_offer: Seq<char>,
    restream_key: Seq<char>,
    expected: AnswerView,
    caller: Seq<char>,
)
    ensures
        offer_step(Some(p), offer, false, caller) matches Ok(v) ==> v.restreams == p.restreams,
        answer_step(p, stream, is_new, expected_offer, restream_key, caller) matches Ok(v)
            ==> v.restreams == p.restreams,
        consume_step(p, expected, caller) matches Ok(v) ==> v.restreams == p.restreams.push(
            expected.restream_key,
        ) && p.restreams.is_prefix_of(v.restreams),
{
    if consume_step(p, expected, caller) is Ok {
        let v = consume_step(p, expected, caller)->Ok_0;
        assert(v.restreams.take(p.restreams.len() as int) =~= p.restreams);
    }
}

/// Round reset: a successful consume clears both `offer` and `answer` while
/// preserving the owner and extending the history by exactly the consumed
/// answer's restream key.
pub proof fn lemma_round_reset(p: StreamInfoView, expected: AnswerView, caller: Seq<char>)
    requires
        consume_step(p, expected, caller) is Ok,
    ensures
        ({
            let v = consume_step(p, expected, caller)->Ok_0;
            &&& v.offer is None
            &&& v.answer is None
            &&& v.owner_id == p.owner_id
            &&& v.restreams == p.restreams.push(expected.restream_key)
        }),
{
}

/// Stored records never answer themselves: every transition that leaves an
/// answer in place leaves one whose `account_id` differs from the record's
/// owner, so the stored-record invariant of the data model is preserved by
/// every operation.
pub proof fn lemma_no_self_answer_stored(
    prev: Option<StreamInfoView>,
    offer: Option<Seq<char>>,
    stream: Seq<char>,
    is_new: bool,
    expected_offer: Seq<char>,
    restream_key: Seq<char>,
    expected: AnswerView,
    caller: Seq<char>,
)
    requires
        prev matches Some(p) ==> answer_ownership_separate(p),
    ensures
        offer_step(prev, offer, is_new, caller) matches Ok(v) ==> answer_ownership_separate(v),
        match prev {
            Some(p) => {
                &&& (answer_step(p, stream, is_new, expected_offer, restream_key, caller) matches
                    Ok(v) ==> answer_ownership_separate(v))
                &&& (consume_step(p, expected, caller) matches Ok(v) ==> answer_ownership_separate(
                    v,
                ))
            },
            None => true,
        },
{
}

/// True when the record's answer, if present, was placed by someone other
/// than the record's owner.
pub open spec fn answer_ownership_separate(p: StreamInfoView) -> bool {
    match p.answer {
        Some(a) => a.account_id != p.owner_id,
        None => true,
    }
}

} // verus!
