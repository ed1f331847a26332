use vstd::prelude::*;

verus! {

/// An opaque offer or answer payload (an SDP-like blob); its contents are
/// never parsed or validated.
pub type Stream = String;

/// The externally chosen, opaque identifier of one negotiation session.
pub type StreamKey = String;

/// An opaque, already-authenticated caller identity, supplied per call by the
/// hosting execution context.
pub type AccountId = String;

/// An opaque encrypted re-distribution credential.
pub type EncryptedSecretKey = String;

/// A published answer: the party that placed it, its payload, and the
/// restream credential handed over with it.
pub struct Answer {
    pub account_id: AccountId,
    pub stream: Stream,
    pub restream_key: EncryptedSecretKey,
}

/// The mathematical value of an [`Answer`]: its three fields as character
/// sequences. Two answers are equal exactly when all three fields are equal.
#[verifier::ext_equal]
pub ghost struct AnswerView {
    pub account_id: Seq<char>,
    pub stream: Seq<char>,
    pub restream_key: Seq<char>,
}

impl View for Answer {
    type V = AnswerView;

    open spec fn view(&self) -> AnswerView {
        AnswerView {
            account_id: self.account_id@,
            stream: self.stream@,
            restream_key: self.restream_key@,
        }
    }
}

impl Answer {
    /// True exactly when `self` and `other` agree on all three fields.
    pub fn same_as(&self, other: &Answer) -> (r: bool)
        ensures
            r == (self@ == other@),
    {
        self.account_id == other.account_id && self.stream == other.stream
            && self.restream_key == other.restream_key
    }

    /// An answer with the same value as `self`.
    pub fn duplicate(&self) -> (r: Answer)
        ensures
            r@ == self@,
    {
        Answer {
            account_id: self.account_id.clone(),
            stream: self.stream.clone(),
            restream_key: self.restream_key.clone(),
        }
    }
}

/// One session record: the owner that opened the session, the pending offer
/// and answer of the current round, and the append-only history of restream
/// credentials from completed rounds.
pub struct StreamInfo {
    pub owner_id: AccountId,
    pub offer: Option<Stream>,
    pub answer: Option<Answer>,
    pub restreams: Vec<EncryptedSecretKey>,
}

/// The mathematical value of a [`StreamInfo`].
#[verifier::ext_equal]
pub ghost struct StreamInfoView {
    pub owner_id: Seq<char>,
    pub offer: Option<Seq<char>>,
    pub answer: Option<AnswerView>,
    pub restreams: Seq<Seq<char>>,
}

impl View for StreamInfo {
    type V = StreamInfoView;

    open spec fn view(&self) -> StreamInfoView {
        StreamInfoView {
            owner_id: self.owner_id@,
            offer: self.offer.deep_view(),
            answer: match self.answer {
                Some(a) => Some(a@),
                None => None,
            },
            restreams: self.restreams.deep_view(),
        }
    }
}

impl StreamInfo {
    /// A record with the same value as `self`.
    pub fn duplicate(&self) -> (r: StreamInfo)
        ensures
            r@ == self@,
    {
        let offer: Option<Stream> = match &self.offer {
            Some(o) => Some(o.clone()),
            None => None,
        };
        let answer: Option<Answer> = match &self.answer {
            Some(a) => Some(a.duplicate()),
            None => None,
        };
        let mut restreams: Vec<EncryptedSecretKey> = Vec::new();
        let mut i: usize = 0;
        while i < self.restreams.len()
            invariant
                i <= self.restreams.len(),
                restreams.deep_view() == self.restreams.deep_view().take(i as int),
            decreases self.restreams.len() - i,
        {
            let ghost prev = restreams.deep_view();
            restreams.push(self.restreams[i].clone());
            proof {
                assert(restreams.deep_view() =~= prev.push(self.restreams.deep_view()[i as int]));
                assert(self.restreams.deep_view().take(i + 1) =~= prev.push(
                    self.restreams.deep_view()[i as int],
                ));
            }
            i = i + 1;
        }
        proof {
            assert(restreams.deep_view() =~= self.restreams.deep_view());
        }
        let r = StreamInfo { owner_id: self.owner_id.clone(), offer, answer, restreams };
        proof {
            assert(r@ =~= self@);
        }
        r
    }
}

} // verus!
