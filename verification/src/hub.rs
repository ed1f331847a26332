use vstd::hash_map::StringHashMap;
use vstd::prelude::*;

use crate::errors::HubError;
use crate::machine::{answer_step, consume_answer, consume_step, offer_step, opt_record_view,
    publish_answer, publish_offer};
use crate::records::{AccountId, Answer, EncryptedSecretKey, Stream, StreamInfo, StreamInfoView,
    StreamKey};

verus! {

/// The prior record for `key` in a hub state, if any.
pub open spec fn lookup(m: Map<Seq<char>, StreamInfoView>, key: Seq<char>) -> Option<
    StreamInfoView,
> {
    if m.contains_key(key) {
        Some(m[key])
    } else {
        None
    }
}

/// The signaling hub: it owns the mapping from stream key to session record
/// and serializes every read-modify-write on one key.
///
/// Abstractly a hub is a finite map from key to [`StreamInfoView`]; each
/// operation of the signaling state machine either replaces the one entry it
/// names or, on a validation failure, leaves the map untouched.
pub struct WebRTCHub {
    streams: StringHashMap<StreamInfo>,
}

impl View for WebRTCHub {
    type V = Map<Seq<char>, StreamInfoView>;

    closed spec fn view(&self) -> Map<Seq<char>, StreamInfoView> {
        self.streams@.map_values(|p: StreamInfo| p@)
    }
}

impl WebRTCHub {
    /// Bootstraps an empty store. The hosting context reports whether a store
    /// already exists; bootstrapping twice is refused.
    pub fn new(already_initialized: bool) -> (r: Result<WebRTCHub, HubError>)
        ensures
            already_initialized ==> r == Err::<WebRTCHub, HubError>(HubError::AlreadyInitialized),
            !already_initialized ==> (r matches Ok(hub) && hub@ == Map::<
                Seq<char>,
                StreamInfoView,
            >::empty()),
    {
        if already_initialized {
            return Err(HubError::AlreadyInitialized);
        }
        let hub = WebRTCHub { streams: StringHashMap::new() };
        proof {
            assert(hub@ =~= Map::<Seq<char>, StreamInfoView>::empty());
        }
        Ok(hub)
    }

    /// Publishes an offer for `key` on behalf of `caller`, as
    /// [`offer_step`] describes: with `is_new` a fresh record (owner reset
    /// only), otherwise an in-place replacement of the stored offer.
    ///
    /// Whatever the outcome, no record changes its owner and, short of an
    /// owner's deliberate `is_new` reset, none loses restream history.
    pub fn offer(
        &mut self,
        key: StreamKey,
        offer: Option<Stream>,
        is_new: bool,
        caller: AccountId,
    ) -> (r: Result<(), HubError>)
        ensures
            match offer_step(lookup(old(self)@, key@), offer.deep_view(), is_new, caller@) {
                Ok(v) => r == Ok::<(), HubError>(()) && final(self)@ == old(self)@.insert(key@, v),
                Err(e) => r == Err::<(), HubError>(e) && final(self)@ == old(self)@,
            },
            forall|k: Seq<char>|
                old(self)@.contains_key(k) && #[trigger] final(self)@.contains_key(k) ==> final(self)@[k].owner_id == old(self)@[k].owner_id,
            !is_new ==> forall|k: Seq<char>|
                old(self)@.contains_key(k) && #[trigger] final(self)@.contains_key(k) ==> final(self)@[k].restreams == old(self)@[k].restreams,
    {
        let ghost key_v = key@;
        let prev = self.streams.get(key.as_str());
        proof {
            assert(opt_record_view(prev) == lookup(self@, key_v));
        }
        match publish_offer(prev, offer, is_new, caller) {
            Ok(rec) => {
                let ghost rec_v = rec@;
                self.streams.insert(key, rec);
                proof {
                    assert(self@ =~= old(self)@.insert(key_v, rec_v));
                }
                Ok(())
            },
            Err(e) => Err(e),
        }
    }

    /// Publishes or refreshes the answer for `key` on behalf of `caller`, as
    /// [`answer_step`] describes.
    ///
    /// A caller that owns the record is always refused with
    /// `SelfAnswerForbidden`; no record changes its owner or its restream
    /// history.
    pub fn answer(
        &mut self,
        key: StreamKey,
        stream: Stream,
        is_new: bool,
        offer: Stream,
        restream_key: EncryptedSecretKey,
        caller: AccountId,
    ) -> (r: Result<(), HubError>)
        ensures
            !old(self)@.contains_key(key@) ==> r == Err::<(), HubError>(HubError::NotFound)
                && final(self)@ == old(self)@,
            old(self)@.contains_key(key@) ==> match answer_step(
                old(self)@[key@],
                stream@,
                is_new,
                offer@,
                restream_key@,
                caller@,
            ) {
                Ok(v) => r == Ok::<(), HubError>(()) && final(self)@ == old(self)@.insert(key@, v),
                Err(e) => r == Err::<(), HubError>(e) && final(self)@ == old(self)@,
            },
            old(self)@.contains_key(key@) && caller@ == old(self)@[key@].owner_id ==> r == Err::<
                (),
                HubError,
            >(HubError::SelfAnswerForbidden),
            forall|k: Seq<char>|
                old(self)@.contains_key(k) && #[trigger] final(self)@.contains_key(k) ==> final(self)@[k].owner_id == old(self)@[k].owner_id && final(self)@[k].restreams == old(self)@[k].restreams,
    {
        let ghost key_v = key@;
        let prev = self.streams.get(key.as_str());
        proof {
            assert(opt_record_view(prev) == lookup(self@, key_v));
        }
        match prev {
            None => Err(HubError::NotFound),
            Some(p) => {
                match publish_answer(p, stream, is_new, offer, restream_key, caller) {
                    Ok(rec) => {
                        let ghost rec_v = rec@;
                        self.streams.insert(key, rec);
                        proof {
                            assert(self@ =~= old(self)@.insert(key_v, rec_v));
                        }
                        Ok(())
                    },
                    Err(e) => Err(e),
                }
            },
        }
    }

    /// Consumes the answer for `key` on behalf of `caller`, as
    /// [`consume_step`] describes: only the owner, and only against an exact
    /// snapshot of the current answer.
    ///
    /// On success the round resets: the answer's restream key is appended to
    /// the history and both `offer` and `answer` are cleared; the history is
    /// never shortened, and a failed consume mutates nothing.
    pub fn take_answer(&mut self, key: StreamKey, answer: Answer, caller: AccountId) -> (r: Result<
        (),
        HubError,
    >)
        ensures
            !old(self)@.contains_key(key@) ==> r == Err::<(), HubError>(HubError::NotFound)
                && final(self)@ == old(self)@,
            old(self)@.contains_key(key@) ==> match consume_step(
                old(self)@[key@],
                answer@,
                caller@,
            ) {
                Ok(v) => r == Ok::<(), HubError>(()) && final(self)@ == old(self)@.insert(key@, v),
                Err(e) => r == Err::<(), HubError>(e) && final(self)@ == old(self)@,
            },
            r is Err ==> final(self)@ == old(self)@,
            r is Ok ==> old(self)@.contains_key(key@) && final(self)@[key@].offer is None && final(self)@[key@].answer is None && final(self)@[key@].owner_id == old(self)@[key@].owner_id
                && final(self)@[key@].restreams == old(self)@[key@].restreams.push(
                answer@.restream_key,
            ),
            forall|k: Seq<char>|
                old(self)@.contains_key(k) && #[trigger] final(self)@.contains_key(k) ==> final(self)@[k].owner_id == old(self)@[k].owner_id && old(self)@[k].restreams.is_prefix_of(
                    final(self)@[k].restreams,
                ),
    {
        let ghost key_v = key@;
        let prev = self.streams.get(key.as_str());
        proof {
            assert(opt_record_view(prev) == lookup(self@, key_v));
        }
        match prev {
            None => Err(HubError::NotFound),
            Some(p) => {
                let ghost p_v = p@;
                match consume_answer(p, answer, caller) {
                    Ok(rec) => {
                        let ghost rec_v = rec@;
                        self.streams.insert(key, rec);
                        proof {
                            assert(self@ =~= old(self)@.insert(key_v, rec_v));
                            assert(p_v.restreams.is_prefix_of(rec_v.restreams)) by {
                                assert(rec_v.restreams.take(p_v.restreams.len() as int)
                                    =~= p_v.restreams);
                            }
                        }
                        Ok(())
                    },
                    Err(e) => Err(e),
                }
            },
        }
    }

    /// Reads the record for `key`, with no authorization check.
    pub fn get(&self, key: StreamKey) -> (r: Option<&StreamInfo>)
        ensures
            match r {
                Some(p) => self@.contains_key(key@) && p@ == self@[key@],
                None => !self@.contains_key(key@),
            },
    {
        let r = self.streams.get(key.as_str());
        proof {
            assert(opt_record_view(r) == lookup(self@, key@));
        }
        r
    }
}

} // verus!
