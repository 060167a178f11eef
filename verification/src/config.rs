//! Configuration of the server.
use std::sync::Arc;

use vstd::prelude::*;

use crate::bytes::same_bytes;
use crate::error::RealityServerError;
use crate::time::{DefaultTimeProvider, Duration, TimeProvider, UnixTime};

#[allow(unused_imports)]
use crate::error::ErrorView;

verus! {

/// Length of a short ID in bytes.
pub const SHORT_ID_LEN: usize = 8;

/// What a configuration says, apart from where it takes the time from.
#[verifier::ext_equal]
pub struct ConfigView {
    /// X25519 private key.
    pub private_key: Seq<u8>,
    /// Accepted short IDs; if there is none, every short ID is accepted.
    pub short_ids: Set<Seq<u8>>,
    /// Accepted server names; if there is none, every server name is accepted.
    pub server_names: Set<Seq<char>>,
    /// Largest accepted clock skew in nanoseconds; `None` switches the check off.
    pub max_time_diff: Option<nat>,
    /// Oldest accepted client version.
    pub min_client_ver: Option<Seq<u8>>,
    /// Newest accepted client version.
    pub max_client_ver: Option<Seq<u8>>,
}

/// Configuration for a REALITY TLS server.
#[derive(Debug)]
pub struct RealityServerConfig<T: TimeProvider = DefaultTimeProvider> {
    private_key: [u8; 32],
    short_ids: Vec<[u8; 8]>,
    server_names: Vec<String>,
    max_time_diff: Option<Duration>,
    min_client_ver: Option<[u8; 3]>,
    max_client_ver: Option<[u8; 3]>,
    time_provider: Arc<T>,
}

/// `id` filled up with zeros on the right to the length of a short ID.
pub open spec fn padded(id: Seq<u8>) -> Seq<u8>
    recommends
        id.len() <= SHORT_ID_LEN,
{
    Seq::new(SHORT_ID_LEN as nat, |i: int| if i < id.len() { id[i] } else { 0u8 })
}

/// The short IDs that `ids` stands for.
pub open spec fn padded_set(ids: Seq<Seq<u8>>) -> Set<Seq<u8>> {
    ids.map_values(|id: Seq<u8>| padded(id)).to_set()
}

/// Whether an allow-list lets `item` through: an empty one lets everything through.
pub open spec fn allows<A>(list: Set<A>, item: A) -> bool {
    list.is_empty() || list.contains(item)
}

/// The length of an optional span in nanoseconds.
pub open spec fn span_view(span: Option<Duration>) -> Option<nat> {
    match span {
        Some(d) => Some(d@),
        None => None,
    }
}

/// The bytes of an optional client version.
pub open spec fn version_view(version: Option<[u8; 3]>) -> Option<Seq<u8>> {
    match version {
        Some(v) => Some(v@),
        None => None,
    }
}

/// The byte strings of `arrays`, as a set.
spec fn id_set(arrays: Seq<[u8; 8]>) -> Set<Seq<u8>> {
    arrays.map_values(|id: [u8; 8]| id@).to_set()
}

/// The texts of `names`, as a set.
spec fn name_set(names: Seq<String>) -> Set<Seq<char>> {
    names.map_values(|name: String| name@).to_set()
}

impl<T: TimeProvider> View for RealityServerConfig<T> {
    type V = ConfigView;

    closed spec fn view(&self) -> ConfigView {
        ConfigView {
            private_key: self.private_key@,
            short_ids: id_set(self.short_ids@),
            server_names: name_set(self.server_names@),
            max_time_diff: span_view(self.max_time_diff),
            min_client_ver: version_view(self.min_client_ver),
            max_client_ver: version_view(self.max_client_ver),
        }
    }
}

impl RealityServerConfig {
    /// Build a REALITY server config from a 32-byte X25519 private key.
    ///
    /// It accepts every short ID, server name, client version and timestamp, and reads the
    /// wall clock.
    pub fn new(private_key: [u8; 32]) -> (config: Self)
        ensures
            config@ == (ConfigView {
                private_key: private_key@,
                short_ids: Set::empty(),
                server_names: Set::empty(),
                max_time_diff: None,
                min_client_ver: None,
                max_client_ver: None,
            }),
            config.provider() == DefaultTimeProvider,
    {
        RealityServerConfig {
            private_key,
            short_ids: Vec::new(),
            server_names: Vec::new(),
            max_time_diff: None,
            min_client_ver: None,
            max_client_ver: None,
            time_provider: Arc::new(DefaultTimeProvider),
        }
    }
}

impl<T: TimeProvider> RealityServerConfig<T> {
    /// No list holds an entry twice, and a skew of zero is not kept as a limit.
    #[verifier::type_invariant]
    spec fn wf(self) -> bool {
        &&& self.short_ids@.map_values(|id: [u8; 8]| id@).no_duplicates()
        &&& self.server_names@.map_values(|name: String| name@).no_duplicates()
        &&& span_view(self.max_time_diff) != Some(0nat)
    }

    /// Where the configuration takes the time from.
    pub closed spec fn provider(&self) -> T {
        *self.time_provider
    }

    /// Add an accepted short ID (at most 8 bytes, zero-padded on the right).
    pub fn with_short_id(self, short_id: &[u8]) -> (res: Result<Self, RealityServerError>)
        ensures
            match res {
                Ok(config) => {
                    &&& short_id@.len() <= SHORT_ID_LEN
                    &&& config@ == (ConfigView {
                        short_ids: self@.short_ids.insert(padded(short_id@)),
                        ..self@
                    })
                    &&& config.provider() == self.provider()
                },
                Err(e) => short_id@.len() > SHORT_ID_LEN && e@ == ErrorView::ShortIdTooLong,
            },
    {
        proof {
            use_type_invariant(&self);
        }
        if short_id.len() > SHORT_ID_LEN {
            return Err(RealityServerError::ShortIdTooLong);
        }
        let id = pad_short_id(short_id);
        if self.lists_short_id(&id) {
            proof {
                assert(self@.short_ids.insert(id@) =~= self@.short_ids);
            }
            return Ok(self);
        }
        let mut short_ids = self.short_ids;
        short_ids.push(id);
        proof {
            let before = self.short_ids@.map_values(|id: [u8; 8]| id@);
            let after = short_ids@.map_values(|id: [u8; 8]| id@);
            assert(after =~= before.push(id@));
            lemma_push_new(before, id@);
        }
        Ok(RealityServerConfig { short_ids, ..self })
    }

    /// Replace the accepted short ID set.
    pub fn with_short_ids(self, short_ids: &[&[u8]]) -> (res: Result<Self, RealityServerError>)
        ensures
            match res {
                Ok(config) => {
                    &&& forall|i: int|
                        0 <= i < short_ids@.len() ==> (#[trigger] short_ids@[i])@.len() <= SHORT_ID_LEN
                    &&& config@ == (ConfigView {
                        short_ids: padded_set(short_ids@.map_values(|id: &[u8]| id@)),
                        ..self@
                    })
                    &&& config.provider() == self.provider()
                },
                Err(e) => {
                    &&& exists|i: int|
                        0 <= i < short_ids@.len() && (#[trigger] short_ids@[i])@.len() > SHORT_ID_LEN
                    &&& e@ == ErrorView::ShortIdTooLong
                },
            },
    {
        proof {
            use_type_invariant(&self);
        }
        let ghost lists = short_ids@.map_values(|id: &[u8]| id@);
        let ghost padded_ids = lists.map_values(|id: Seq<u8>| padded(id));
        let mut config = RealityServerConfig { short_ids: Vec::new(), ..self };
        let mut i: usize = 0;
        proof {
            assert(config@.short_ids =~= padded_ids.take(0).to_set());
        }
        while i < short_ids.len()
            invariant
                i <= short_ids@.len(),
                lists == short_ids@.map_values(|id: &[u8]| id@),
                padded_ids == lists.map_values(|id: Seq<u8>| padded(id)),
                config@ == (ConfigView { short_ids: padded_ids.take(i as int).to_set(), ..self@ }),
                config.provider() == self.provider(),
                forall|j: int| 0 <= j < i ==> (#[trigger] short_ids@[j])@.len() <= SHORT_ID_LEN,
            decreases short_ids@.len() - i,
        {
            config =
            match config.with_short_id(short_ids[i]) {
                Ok(longer) => longer,
                Err(e) => {
                    assert(short_ids@[i as int]@.len() > SHORT_ID_LEN);
                    return Err(e);
                },
            };
            proof {
                assert(padded_ids.take(i + 1) =~= padded_ids.take(i as int).push(padded_ids[i as int]));
                lemma_push_new(padded_ids.take(i as int), padded_ids[i as int]);
            }
            i += 1;
        }
        proof {
            assert(padded_ids.take(i as int) =~= padded_ids);
        }
        Ok(config)
    }

    /// Add an accepted SNI server name.
    pub fn with_server_name(self, name: &str) -> (config: Self)
        ensures
            config@ == (ConfigView { server_names: self@.server_names.insert(name@), ..self@ }),
            config.provider() == self.provider(),
    {
        proof {
            use_type_invariant(&self);
        }
        if self.lists_server_name(name) {
            proof {
                assert(self@.server_names.insert(name@) =~= self@.server_names);
            }
            return self;
        }
        let mut server_names = self.server_names;
        server_names.push(name.to_string());
        proof {
            let before = self.server_names@.map_values(|name: String| name@);
            let after = server_names@.map_values(|name: String| name@);
            assert(after =~= before.push(name@));
            lemma_push_new(before, name@);
        }
        RealityServerConfig { server_names, ..self }
    }

    /// Replace the accepted server name set.
    pub fn with_server_names(self, names: &[&str]) -> (config: Self)
        ensures
            config@ == (ConfigView {
                server_names: names@.map_values(|name: &str| name@).to_set(),
                ..self@
            }),
            config.provider() == self.provider(),
    {
        proof {
            use_type_invariant(&self);
        }
        let ghost texts = names@.map_values(|name: &str| name@);
        let mut config = RealityServerConfig { server_names: Vec::new(), ..self };
        let mut i: usize = 0;
        proof {
            assert(config@.server_names =~= texts.take(0).to_set());
        }
        while i < names.len()
            invariant
                i <= names@.len(),
                texts == names@.map_values(|name: &str| name@),
                config@ == (ConfigView { server_names: texts.take(i as int).to_set(), ..self@ }),
                config.provider() == self.provider(),
            decreases names@.len() - i,
        {
            config = config.with_server_name(names[i]);
            proof {
                assert(texts.take(i + 1) =~= texts.take(i as int).push(texts[i as int]));
                lemma_push_new(texts.take(i as int), texts[i as int]);
            }
            i += 1;
        }
        proof {
            assert(texts.take(i as int) =~= texts);
        }
        config
    }

    /// Set the maximum allowed absolute timestamp skew.
    ///
    /// `None` or zero disables the check.
    pub fn with_max_time_diff(self, max_time_diff: Option<Duration>) -> (config: Self)
        ensures
            config@ == (ConfigView {
                max_time_diff: if span_view(max_time_diff) == Some(0nat) {
                    None
                } else {
                    span_view(max_time_diff)
                },
                ..self@
            }),
            config.provider() == self.provider(),
    {
        proof {
            use_type_invariant(&self);
        }
        let max_time_diff = match max_time_diff {
            Some(span) => if span.is_zero() {
                None
            } else {
                Some(span)
            },
            None => None,
        };
        RealityServerConfig { max_time_diff, ..self }
    }

    /// Set optional client version bounds (`None` = unbounded on that side).
    pub fn with_client_ver_range(self, min: Option<[u8; 3]>, max: Option<[u8; 3]>) -> (config: Self)
        ensures
            config@ == (ConfigView {
                min_client_ver: version_view(min),
                max_client_ver: version_view(max),
                ..self@
            }),
            config.provider() == self.provider(),
    {
        proof {
            use_type_invariant(&self);
        }
        RealityServerConfig { min_client_ver: min, max_client_ver: max, ..self }
    }

    /// Override the time provider (defaults to wall clock).
    pub fn with_time_provider<U: TimeProvider>(self, time_provider: Arc<U>) -> (config:
        RealityServerConfig<U>)
        ensures
            config@ == self@,
            config.provider() == *time_provider,
    {
        proof {
            use_type_invariant(&self);
        }
        RealityServerConfig {
            private_key: self.private_key,
            short_ids: self.short_ids,
            server_names: self.server_names,
            max_time_diff: self.max_time_diff,
            min_client_ver: self.min_client_ver,
            max_client_ver: self.max_client_ver,
            time_provider,
        }
    }

    /// X25519 private key bytes.
    pub fn private_key(&self) -> (key: &[u8; 32])
        ensures
            key@ == self@.private_key,
    {
        &self.private_key
    }

    /// Whether the short ID list lets `id` through.
    pub fn allows_short_id(&self, id: &[u8; 8]) -> (allowed: bool)
        ensures
            allowed == allows(self@.short_ids, id@),
    {
        if self.short_ids.len() == 0 {
            proof {
                assert(self@.short_ids =~= Set::empty());
            }
            return true;
        }
        proof {
            let views = self.short_ids@.map_values(|id: [u8; 8]| id@);
            assert(views.contains(views[0]));
            assert(self@.short_ids.contains(views[0]));
        }
        self.lists_short_id(id)
    }

    /// Whether the server name list lets `name` through.
    pub fn allows_server_name(&self, name: &str) -> (allowed: bool)
        ensures
            allowed == allows(self@.server_names, name@),
    {
        if self.server_names.len() == 0 {
            proof {
                assert(self@.server_names =~= Set::empty());
            }
            return true;
        }
        proof {
            let views = self.server_names@.map_values(|name: String| name@);
            assert(views.contains(views[0]));
            assert(self@.server_names.contains(views[0]));
        }
        self.lists_server_name(name)
    }

    /// The largest accepted clock skew, which is not zero.
    pub fn max_time_diff(&self) -> (max: Option<Duration>)
        ensures
            span_view(max) == self@.max_time_diff,
            self@.max_time_diff != Some(0nat),
    {
        proof {
            use_type_invariant(self);
        }
        self.max_time_diff
    }

    /// The oldest accepted client version.
    pub fn min_client_ver(&self) -> (min: Option<[u8; 3]>)
        ensures
            version_view(min) == self@.min_client_ver,
    {
        self.min_client_ver
    }

    /// The newest accepted client version.
    pub fn max_client_ver(&self) -> (max: Option<[u8; 3]>)
        ensures
            version_view(max) == self@.max_client_ver,
    {
        self.max_client_ver
    }

    /// The time by the configured provider.
    pub fn current_time(&self) -> (now: Option<UnixTime>)
        ensures
            call_ensures(T::current_time, (&self.provider(),), now),
    {
        self.time_provider.current_time()
    }

    /// Whether `id` is one of the listed short IDs.
    fn lists_short_id(&self, id: &[u8; 8]) -> (listed: bool)
        ensures
            listed == self@.short_ids.contains(id@),
    {
        let mut i: usize = 0;
        let ghost views = self.short_ids@.map_values(|id: [u8; 8]| id@);
        while i < self.short_ids.len()
            invariant
                i <= self.short_ids@.len(),
                views == self.short_ids@.map_values(|id: [u8; 8]| id@),
                forall|j: int| 0 <= j < i ==> views[j] != id@,
            decreases self.short_ids@.len() - i,
        {
            if same_bytes(&self.short_ids[i], id) {
                proof {
                    assert(views[i as int] == id@);
                    assert(views.contains(id@));
                }
                return true;
            }
            i += 1;
        }
        assert(!views.contains(id@));
        false
    }

    /// Whether `name` is one of the listed server names.
    fn lists_server_name(&self, name: &str) -> (listed: bool)
        ensures
            listed == self@.server_names.contains(name@),
    {
        let wanted = name.to_string();
        let mut i: usize = 0;
        let ghost views = self.server_names@.map_values(|name: String| name@);
        while i < self.server_names.len()
            invariant
                i <= self.server_names@.len(),
                views == self.server_names@.map_values(|name: String| name@),
                wanted@ == name@,
                forall|j: int| 0 <= j < i ==> views[j] != name@,
            decreases self.server_names@.len() - i,
        {
            if self.server_names[i] == wanted {
                proof {
                    assert(views[i as int] == name@);
                    assert(views.contains(name@));
                }
                return true;
            }
            i += 1;
        }
        assert(!views.contains(name@));
        false
    }
}

impl<T: TimeProvider> Clone for RealityServerConfig<T> {
    fn clone(&self) -> (copy: Self)
        ensures
            copy@ == self@,
            copy.provider() == self.provider(),
    {
        proof {
            use_type_invariant(self);
        }
        let mut short_ids: Vec<[u8; 8]> = Vec::new();
        let mut i: usize = 0;
        while i < self.short_ids.len()
            invariant
                i <= self.short_ids@.len(),
                short_ids@ == self.short_ids@.take(i as int),
            decreases self.short_ids@.len() - i,
        {
            short_ids.push(self.short_ids[i]);
            i += 1;
        }
        let server_names = self.server_names.clone();
        proof {
            assert(short_ids@ =~= self.short_ids@);
            assert(server_names@.map_values(|name: String| name@) =~= self.server_names@.map_values(
                |name: String| name@,
            ));
        }
        RealityServerConfig {
            private_key: self.private_key,
            short_ids,
            server_names,
            max_time_diff: self.max_time_diff,
            min_client_ver: self.min_client_ver,
            max_client_ver: self.max_client_ver,
            time_provider: self.time_provider.clone(),
        }
    }
}

/// `short_id` filled up with zeros on the right.
fn pad_short_id(short_id: &[u8]) -> (id: [u8; 8])
    requires
        short_id@.len() <= SHORT_ID_LEN,
    ensures
        id@ == padded(short_id@),
{
    let mut id: [u8; 8] = [0u8; 8];
    let mut i: usize = 0;
    while i < short_id.len()
        invariant
            i <= short_id@.len() <= SHORT_ID_LEN,
            forall|j: int| 0 <= j < SHORT_ID_LEN ==> id@[j] == if j < i { short_id@[j] } else { 0u8 },
        decreases short_id@.len() - i,
    {
        id[i] = short_id[i];
        i += 1;
    }
    assert(id@ =~= padded(short_id@));
    id
}

/// Pushing what is not there yet keeps a sequence free of duplicates and adds it to the set.
pub(crate) proof fn lemma_push_new<A>(s: Seq<A>, a: A)
    ensures
        s.push(a).to_set() == s.to_set().insert(a),
        s.no_duplicates() && !s.contains(a) ==> s.push(a).no_duplicates(),
{
    let after = s.push(a);
    assert forall|x: A| after.to_set().contains(x) == s.to_set().insert(a).contains(x) by {
        if s.contains(x) {
            let i = choose|i: int| 0 <= i < s.len() && s[i] == x;
            assert(after[i] == x);
        }
        assert(after[s.len() as int] == a);
        if after.contains(x) && x != a {
            let i = choose|i: int| 0 <= i < after.len() && after[i] == x;
            assert(s[i] == x);
        }
    }
    assert(after.to_set() =~= s.to_set().insert(a));
}

} // verus!
