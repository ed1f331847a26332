use vstd::prelude::*;

use crate::records::{AccountId, StreamInfo, StreamInfoView};

verus! {

/// True when `caller` owns the record.
pub open spec fn spec_is_owner(p: StreamInfoView, caller: Seq<char>) -> bool {
    p.owner_id == caller
}

/// True when an answer placed by `caller` would answer the caller's own offer.
pub open spec fn spec_is_self_answer(p: StreamInfoView, caller: Seq<char>) -> bool {
    p.owner_id == caller
}

/// True when the record's current answer exists and was placed by `caller`.
pub open spec fn spec_answer_belongs_to(p: StreamInfoView, caller: Seq<char>) -> bool {
    match p.answer {
        Some(a) => a.account_id == caller,
        None => false,
    }
}

/// Decides [`spec_is_owner`] on a concrete record.
pub fn is_owner(p: &StreamInfo, caller: &AccountId) -> (r: bool)
    ensures
        r == spec_is_owner(p@, caller@),
{
    p.owner_id == *caller
}

/// Decides [`spec_is_self_answer`] on a concrete record.
pub fn is_self_answer(p: &StreamInfo, caller: &AccountId) -> (r: bool)
    ensures
        r == spec_is_self_answer(p@, caller@),
{
    p.owner_id == *caller
}

/// Decides [`spec_answer_belongs_to`] on a concrete record.
pub fn answer_belongs_to(p: &StreamInfo, caller: &AccountId) -> (r: bool)
    ensures
        r == spec_answer_belongs_to(p@, caller@),
{
    match &p.answer {
        Some(a) => a.account_id == *caller,
        None => false,
    }
}

} // verus!
