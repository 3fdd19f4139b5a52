//! The registry of gateway profiles, keyed by profile id.
use crate::domain::{AudioRequest, GatewayProfile, GenerationJob, ImageRequest, VideoRequest};
use crate::jobs::{
    audio_job, audio_job_spec, image_job, image_job_spec, video_job, video_job_spec,
};
use crate::outside::{new_uuid_v4, utc_now_rfc3339};
use crate::keyed::TextMap;
use crate::text::{owned, str_eq};
use vstd::prelude::*;

verus! {

/// The built-in profile of the local mock gateway.
pub open spec fn is_mock_profile(p: GatewayProfile) -> bool {
    &&& p.id@ == "mock-default"@
    &&& p.name@ == "Mock Gateway"@
    &&& p.base_url@ == "mock://local"@
    &&& p.protocol@ == "openai-compatible"@
    &&& p.api_key_ref@ == "system-keychain:mock-default"@
    &&& p.enabled
    &&& p.is_default
    &&& p.created_at matches Some(c) && c@ == "1970-01-01T00:00:00Z"@
    &&& p.updated_at matches Some(u) && u@ == "1970-01-01T00:00:00Z"@
}

/// The profiles of a list keyed by id; a later profile with the same id
/// replaces an earlier one.
pub open spec fn profiles_by_id(s: Seq<GatewayProfile>) -> Map<Seq<char>, GatewayProfile>
    decreases s.len(),
{
    if s.len() == 0 {
        Map::empty()
    } else {
        profiles_by_id(s.drop_last()).insert(s.last().id@, s.last())
    }
}

/// Every profile is filed under its own id.
pub open spec fn filed_by_id(m: Map<Seq<char>, GatewayProfile>) -> bool {
    forall|k: Seq<char>| #[trigger] m.contains_key(k) ==> m[k].id@ == k
}

/// What `profile(id)` answers on registry contents `m`: the stored profile;
/// else the mock profile for "mock-default" when no profile is stored;
/// else nothing.
pub open spec fn lookup_answer(
    m: Map<Seq<char>, GatewayProfile>,
    id: Seq<char>,
    r: Option<GatewayProfile>,
) -> bool {
    if m.contains_key(id) {
        r == Some(m[id])
    } else if id == "mock-default"@ && m.dom().len() == 0 {
        r matches Some(p) && is_mock_profile(p)
    } else {
        r is None
    }
}

/// `p` with its default flag set to `flag`.
pub open spec fn with_default(p: GatewayProfile, flag: bool) -> GatewayProfile {
    GatewayProfile { is_default: flag, ..p }
}

/// The contents after `set_default(id)`: every profile keeps its fields and
/// is the default exactly when its id is `id`.
pub open spec fn defaults_set(
    m: Map<Seq<char>, GatewayProfile>,
    id: Seq<char>,
) -> Map<Seq<char>, GatewayProfile> {
    Map::new(|k: Seq<char>| m.contains_key(k), |k: Seq<char>| with_default(m[k], m[k].id@ == id))
}

/// The ids of the models that every gateway is assumed to offer.
pub open spec fn known_models() -> Seq<Seq<char>> {
    seq![
        "gpt-4.1"@,
        "grok-imagine-image-2.0"@,
        "flux-pro"@,
        "gpt-image-1"@,
        "grok-imagine-video"@,
        "veo-3"@,
        "mock-audio"@,
    ]
}

/// Gateway profiles by id.
pub struct GatewayRegistry {
    profiles: TextMap<GatewayProfile>,
}

impl GatewayRegistry {
    /// Well-formedness: the map is well formed and files each profile
    /// under its id.
    pub closed spec fn wf(&self) -> bool {
        self.profiles.wf() && filed_by_id(self.profiles@)
    }

    /// The profiles, by id.
    pub closed spec fn view(&self) -> Map<Seq<char>, GatewayProfile> {
        self.profiles@
    }

    /// Every operation keeps each profile filed under its own id.
    pub proof fn law_profiles_filed_by_id(&self)
        requires
            self.wf(),
        ensures
            filed_by_id(self@),
            self@.dom().finite(),
    {
        self.profiles.lemma_entries();
    }

    /// An empty registry.
    pub fn new() -> (r: Self)
        ensures
            r.wf(),
            r@ == Map::<Seq<char>, GatewayProfile>::empty(),
    {
        GatewayRegistry { profiles: TextMap::new() }
    }

    /// The built-in profile of the local mock gateway.
    pub fn mock_profile() -> (p: GatewayProfile)
        ensures
            is_mock_profile(p),
    {
        GatewayProfile {
            id: owned("mock-default"),
            name: owned("Mock Gateway"),
            base_url: owned("mock://local"),
            protocol: owned("openai-compatible"),
            api_key_ref: owned("system-keychain:mock-default"),
            enabled: true,
            is_default: true,
            created_at: Some(owned("1970-01-01T00:00:00Z")),
            updated_at: Some(owned("1970-01-01T00:00:00Z")),
        }
    }

    /// A registry holding `profiles`, keyed by id; a later profile with the
    /// same id replaces an earlier one.
    pub fn from_profiles(profiles: Vec<GatewayProfile>) -> (r: Self)
        ensures
            r.wf(),
            r@ == profiles_by_id(profiles@),
    {
        let mut registry = GatewayRegistry::new();
        let n = profiles.len();
        for i in 0..n
            invariant
                n == profiles@.len(),
                registry.wf(),
                registry@ == profiles_by_id(profiles@.take(i as int)),
        {
            let p = profiles[i].duplicate();
            registry.create(p);
            assert(profiles@.take(i as int + 1).drop_last() == profiles@.take(i as int));
        }
        assert(profiles@.take(n as int) == profiles@);
        registry
    }

    /// The profile with id `id`; with no profile stored, "mock-default"
    /// answers the mock profile.
    pub fn profile(&self, id: &str) -> (r: Option<GatewayProfile>)
        requires
            self.wf(),
        ensures
            lookup_answer(self@, id@, r),
    {
        match self.profiles.get(id) {
            Some(p) => Some(p.duplicate()),
            None => {
                if str_eq(id, "mock-default") && self.profiles.len() == 0 {
                    Some(Self::mock_profile())
                } else {
                    None
                }
            },
        }
    }

    /// All profiles; with none stored, the mock profile alone.
    pub fn profiles(&self) -> (r: Vec<GatewayProfile>)
        requires
            self.wf(),
        ensures
            self@.dom().len() == 0 ==> r@.len() == 1 && is_mock_profile(r@[0]),
            self@.dom().len() > 0 ==> {
                &&& r@.len() == self@.dom().len()
                &&& forall|i: int|
                    0 <= i < r@.len() ==> self@.contains_key(#[trigger] r@[i].id@) && self@[r@[i].id@]
                        == r@[i]
                &&& forall|k: Seq<char>|
                    #[trigger] self@.contains_key(k) ==> exists|i: int|
                        0 <= i < r@.len() && #[trigger] r@[i].id@ == k
            },
    {
        proof {
            self.profiles.lemma_entries();
        }
        let n = self.profiles.len();
        if n == 0 {
            let mut one: Vec<GatewayProfile> = Vec::new();
            one.push(Self::mock_profile());
            return one;
        }
        let mut out: Vec<GatewayProfile> = Vec::new();
        for i in 0..n
            invariant
                n == self.profiles.entry_seq().len(),
                self.wf(),
                out@.len() == i,
                forall|j: int|
                    0 <= j < i ==> #[trigger] out@[j] == self.profiles.entry_seq()[j].1,
        {
            let e = self.profiles.entry(i);
            out.push(e.1.duplicate());
        }
        proof {
            self.profiles.lemma_entries();
            assert forall|i: int| 0 <= i < out@.len() implies self@.contains_key(
                #[trigger] out@[i].id@,
            ) && self@[out@[i].id@] == out@[i] by {
                let k = self.profiles.entry_seq()[i].0@;
                assert(self@.contains_key(k));
                assert(self@[k].id@ == k);
            }
            assert forall|k: Seq<char>| #[trigger] self@.contains_key(k) implies exists|i: int|
                0 <= i < out@.len() && #[trigger] out@[i].id@ == k by {
                let i = choose|i: int|
                    0 <= i < self.profiles.entry_seq().len() && #[trigger] self.profiles.entry_seq()[i].0@
                        == k;
                assert(out@[i].id@ == k);
            }
        }
        out
    }

    /// The ids of the models that a gateway offers.
    pub fn models(&self, _profile_id: &str) -> (r: Vec<String>)
        ensures
            r@.len() == known_models().len(),
            forall|i: int| 0 <= i < r@.len() ==> #[trigger] r@[i]@ == known_models()[i],
    {
        let mut v: Vec<String> = Vec::new();
        v.push(owned("gpt-4.1"));
        v.push(owned("grok-imagine-image-2.0"));
        v.push(owned("flux-pro"));
        v.push(owned("gpt-image-1"));
        v.push(owned("grok-imagine-video"));
        v.push(owned("veo-3"));
        v.push(owned("mock-audio"));
        v
    }

    /// A queued video job for `request` (given with its JSON text), under a
    /// fresh random id, created now.
    pub fn create_video_job(&self, request: &VideoRequest, request_json: String) -> (r:
        GenerationJob)
        ensures
            r == video_job_spec(*request, request_json, r.id, r.created_at),
            r.id & 0xF000_C000_0000_0000_0000u128 == 0x4000_8000_0000_0000_0000u128,
    {
        let id = new_uuid_v4();
        let now = utc_now_rfc3339();
        video_job(request, request_json, id, now)
    }

    /// A queued image job for `request` (given with its JSON text), under a
    /// fresh random id, created now.
    pub fn create_image_job(&self, request: &ImageRequest, request_json: String) -> (r:
        GenerationJob)
        ensures
            r == image_job_spec(*request, request_json, r.id, r.created_at),
            r.id & 0xF000_C000_0000_0000_0000u128 == 0x4000_8000_0000_0000_0000u128,
    {
        let id = new_uuid_v4();
        let now = utc_now_rfc3339();
        image_job(request, request_json, id, now)
    }

    /// A queued audio job for `request` (given with its JSON text), under a
    /// fresh random id, created now.
    pub fn create_audio_job(&self, request: &AudioRequest, request_json: String) -> (r:
        GenerationJob)
        ensures
            r == audio_job_spec(*request, request_json, r.id, r.created_at),
            r.id & 0xF000_C000_0000_0000_0000u128 == 0x4000_8000_0000_0000_0000u128,
    {
        let id = new_uuid_v4();
        let now = utc_now_rfc3339();
        audio_job(request, request_json, id, now)
    }

    /// Stores `profile` under its id, replacing any profile with that id.
    pub fn create(&mut self, profile: GatewayProfile)
        requires
            old(self).wf(),
        ensures
            final(self).wf(),
            final(self)@ == old(self)@.insert(profile.id@, profile),
    {
        let key = profile.id.clone();
        self.profiles.insert(key, profile);
    }

    /// Stores `profile` under its id, replacing any profile with that id.
    pub fn update(&mut self, profile: GatewayProfile)
        requires
            old(self).wf(),
        ensures
            final(self).wf(),
            final(self)@ == old(self)@.insert(profile.id@, profile),
    {
        let key = profile.id.clone();
        self.profiles.insert(key, profile);
    }

    /// Removes the profile with id `id`.
    pub fn delete(&mut self, id: &str)
        requires
            old(self).wf(),
        ensures
            final(self).wf(),
            final(self)@ == old(self)@.remove(id@),
    {
        let _ = self.profiles.remove(id);
    }

    /// Makes the profile with id `id` the default and every other profile
    /// not the default.
    pub fn set_default(&mut self, id: &str)
        requires
            old(self).wf(),
        ensures
            final(self).wf(),
            final(self)@ == defaults_set(old(self)@, id@),
    {
        proof {
            self.profiles.lemma_entries();
        }
        let ghost m0 = self@;
        let n = self.profiles.len();
        for i in 0..n
            invariant
                n == self.profiles.entry_seq().len(),
                self.wf(),
                self@.dom() == m0.dom(),
                forall|j: int|
                    0 <= j < n ==> #[trigger] self.profiles.entry_seq()[j].0@ == old(
                        self,
                    ).profiles.entry_seq()[j].0@,
                forall|j: int|
                    0 <= j < n ==> m0.contains_key(#[trigger] old(self).profiles.entry_seq()[j].0@),
                keys_done(old(self).profiles.entry_seq(), i as int, self@, m0, id@),
                forall|k: Seq<char>|
                    #[trigger] self@.contains_key(k) && !done_key(
                        old(self).profiles.entry_seq(),
                        i as int,
                        k,
                    ) ==> self@[k] == m0[k],
                filed_by_id(m0),
        {
            let e = self.profiles.entry(i);
            let mut p = e.1.duplicate();
            let flag = str_eq(p.id.as_str(), id);
            p.is_default = flag;
            proof {
                self.profiles.lemma_entries();
            }
            self.profiles.set_value_at(i, p);
            proof {
                let k = old(self).profiles.entry_seq()[i as int].0@;
                assert(self@.dom() =~= m0.dom());
                assert forall|k2: Seq<char>|
                    #[trigger] self@.contains_key(k2) && !done_key(
                        old(self).profiles.entry_seq(),
                        i as int + 1,
                        k2,
                    ) implies self@[k2] == m0[k2] by {
                    assert(!done_key(old(self).profiles.entry_seq(), i as int, k2));
                }
            }
        }
        proof {
            assert forall|k: Seq<char>| #[trigger] self@.contains_key(k) implies done_key(
                old(self).profiles.entry_seq(),
                n as int,
                k,
            ) by {
                old(self).profiles.lemma_entries();
                let j = choose|j: int|
                    0 <= j < old(self).profiles.entry_seq().len() && #[trigger] old(
                        self,
                    ).profiles.entry_seq()[j].0@ == k;
            }
            assert(self@ =~= defaults_set(m0, id@));
        }
    }
}

/// Key `k` is among the first `i` entries of `s`.
pub open spec fn done_key<V>(s: Seq<(String, V)>, i: int, k: Seq<char>) -> bool {
    exists|j: int| 0 <= j < i && #[trigger] s[j].0@ == k
}

/// The first `i` keys of `s` carry their profile with the default flag set.
pub open spec fn keys_done(
    s: Seq<(String, GatewayProfile)>,
    i: int,
    now: Map<Seq<char>, GatewayProfile>,
    before: Map<Seq<char>, GatewayProfile>,
    id: Seq<char>,
) -> bool {
    forall|k: Seq<char>|
        #[trigger] now.contains_key(k) && done_key(s, i, k) ==> now[k] == with_default(
            before[k],
            before[k].id@ == id,
        )
}

impl Default for GatewayRegistry {
    /// An empty registry.
    fn default() -> (r: Self)
        ensures
            r.wf(),
            r@ == Map::<Seq<char>, GatewayProfile>::empty(),
    {
        GatewayRegistry::new()
    }
}

} // verus!
