//! Calls on a configuration.
use std::sync::Arc;

use vstd::prelude::*;

use crate::config::RealityServerConfig;
use crate::error::RealityServerError;
use crate::time::{Duration, TimeProvider, UnixTime};

#[allow(unused_imports)]
use super::{listed_or_unlisted, zero_filled};
#[allow(unused_imports)]
use crate::config::padded;
#[allow(unused_imports)]
use crate::time::DefaultTimeProvider;

verus! {

/// A new configuration holds the key it was given and bounds nothing.
pub proof fn law_new_config_bounds_nothing(private_key: [u8; 32], config: RealityServerConfig)
    requires
        call_ensures(RealityServerConfig::new, (private_key,), config),
    ensures
        config@.private_key == private_key@,
        forall|id: Seq<u8>| !config@.short_ids.contains(id),
        forall|name: Seq<char>| !config@.server_names.contains(name),
        config@.max_time_diff is None,
        config@.min_client_ver is None,
        config@.max_client_ver is None,
        config.provider() == DefaultTimeProvider,
{
}

/// Adding a short ID succeeds unless it is longer than eight bytes, puts its zero-filled form on
/// the list, and changes nothing else.
pub proof fn law_with_short_id_adds_one<T: TimeProvider>(
    config: RealityServerConfig<T>,
    short_id: &[u8],
    res: Result<RealityServerConfig<T>, RealityServerError>,
)
    requires
        call_ensures(RealityServerConfig::<T>::with_short_id, (config, short_id), res),
    ensures
        res is Ok <==> short_id@.len() <= 8,
        res matches Err(e) ==> e is ShortIdTooLong,
        res matches Ok(longer) ==> {
            &&& forall|id: Seq<u8>| #[trigger]
                longer@.short_ids.contains(id) <==> config@.short_ids.contains(id) || zero_filled(
                    id,
                    short_id@,
                )
            &&& longer@.private_key == config@.private_key
            &&& longer@.server_names == config@.server_names
            &&& longer@.max_time_diff == config@.max_time_diff
            &&& longer@.min_client_ver == config@.min_client_ver
            &&& longer@.max_client_ver == config@.max_client_ver
            &&& longer.provider() == config.provider()
        },
{
    lemma_padded_is_zero_filled(short_id@);
}

/// Replacing the short IDs succeeds unless one is longer than eight bytes, leaves exactly their
/// zero-filled forms on the list, and changes nothing else.
pub proof fn law_with_short_ids_lists_exactly_these<T: TimeProvider>(
    config: RealityServerConfig<T>,
    short_ids: &[&[u8]],
    res: Result<RealityServerConfig<T>, RealityServerError>,
)
    requires
        call_ensures(RealityServerConfig::<T>::with_short_ids, (config, short_ids), res),
    ensures
        res is Ok <==> forall|i: int|
            0 <= i < short_ids@.len() ==> (#[trigger] short_ids@[i])@.len() <= 8,
        res matches Err(e) ==> e is ShortIdTooLong,
        res matches Ok(replaced) ==> {
            &&& forall|id: Seq<u8>| #[trigger]
                replaced@.short_ids.contains(id) <==> exists|i: int|
                    0 <= i < short_ids@.len() && zero_filled(id, (#[trigger] short_ids@[i])@)
            &&& replaced@.private_key == config@.private_key
            &&& replaced@.server_names == config@.server_names
            &&& replaced@.max_time_diff == config@.max_time_diff
            &&& replaced@.min_client_ver == config@.min_client_ver
            &&& replaced@.max_client_ver == config@.max_client_ver
            &&& replaced.provider() == config.provider()
        },
{
    if res is Ok {
        let replaced = res->Ok_0;
        let forms = short_ids@.map_values(|id: &[u8]| id@).map_values(|id: Seq<u8>| padded(id));
        assert forall|id: Seq<u8>| #[trigger]
            replaced@.short_ids.contains(id) implies exists|i: int|
            0 <= i < short_ids@.len() && zero_filled(id, (#[trigger] short_ids@[i])@) by {
            let i = choose|i: int| 0 <= i < forms.len() && forms[i] == id;
            lemma_padded_is_zero_filled(short_ids@[i]@);
            assert(zero_filled(id, short_ids@[i]@));
        }
        assert forall|id: Seq<u8>|
            (exists|i: int|
                0 <= i < short_ids@.len() && zero_filled(
                    id,
                    (#[trigger] short_ids@[i])@,
                )) implies #[trigger] replaced@.short_ids.contains(id) by {
            let i = choose|i: int|
                0 <= i < short_ids@.len() && zero_filled(id, (#[trigger] short_ids@[i])@);
            lemma_padded_is_zero_filled(short_ids@[i]@);
            assert(forms[i] == id);
        }
    }
}

/// Adding a server name puts it on the list and changes nothing else.
pub proof fn law_with_server_name_adds_one<T: TimeProvider>(
    config: RealityServerConfig<T>,
    name: &str,
    longer: RealityServerConfig<T>,
)
    requires
        call_ensures(RealityServerConfig::<T>::with_server_name, (config, name), longer),
    ensures
        forall|text: Seq<char>| #[trigger]
            longer@.server_names.contains(text) <==> config@.server_names.contains(text) || text
                == name@,
        longer@.private_key == config@.private_key,
        longer@.short_ids == config@.short_ids,
        longer@.max_time_diff == config@.max_time_diff,
        longer@.min_client_ver == config@.min_client_ver,
        longer@.max_client_ver == config@.max_client_ver,
        longer.provider() == config.provider(),
{
}

/// Replacing the server names leaves exactly the new ones on the list and changes nothing else.
pub proof fn law_with_server_names_lists_exactly_these<T: TimeProvider>(
    config: RealityServerConfig<T>,
    names: &[&str],
    replaced: RealityServerConfig<T>,
)
    requires
        call_ensures(RealityServerConfig::<T>::with_server_names, (config, names), replaced),
    ensures
        forall|text: Seq<char>| #[trigger]
            replaced@.server_names.contains(text) <==> exists|i: int|
                0 <= i < names@.len() && (#[trigger] names@[i])@ == text,
        replaced@.private_key == config@.private_key,
        replaced@.short_ids == config@.short_ids,
        replaced@.max_time_diff == config@.max_time_diff,
        replaced@.min_client_ver == config@.min_client_ver,
        replaced@.max_client_ver == config@.max_client_ver,
        replaced.provider() == config.provider(),
{
    let texts = names@.map_values(|name: &str| name@);
    assert forall|text: Seq<char>|
        (exists|i: int|
            0 <= i < names@.len() && (#[trigger] names@[i])@
                == text) implies #[trigger] replaced@.server_names.contains(text) by {
        let i = choose|i: int| 0 <= i < names@.len() && (#[trigger] names@[i])@ == text;
        assert(texts[i] == text);
    }
    assert forall|text: Seq<char>| #[trigger]
        replaced@.server_names.contains(text) implies exists|i: int|
        0 <= i < names@.len() && (#[trigger] names@[i])@ == text by {
        let i = choose|i: int| 0 <= i < texts.len() && texts[i] == text;
        assert(names@[i]@ == text);
    }
}

/// A span that is not zero becomes the bound on clock skew; zero or none lifts it. Nothing else
/// changes.
pub proof fn law_with_max_time_diff_sets_the_skew_bound<T: TimeProvider>(
    config: RealityServerConfig<T>,
    max_time_diff: Option<Duration>,
    set: RealityServerConfig<T>,
)
    requires
        call_ensures(RealityServerConfig::<T>::with_max_time_diff, (config, max_time_diff), set),
    ensures
        max_time_diff is None ==> set@.max_time_diff is None,
        max_time_diff matches Some(span) ==> span@ == 0 ==> set@.max_time_diff is None,
        max_time_diff matches Some(span) ==> span@ > 0 ==> set@.max_time_diff == Some(span@),
        set@.private_key == config@.private_key,
        set@.short_ids == config@.short_ids,
        set@.server_names == config@.server_names,
        set@.min_client_ver == config@.min_client_ver,
        set@.max_client_ver == config@.max_client_ver,
        set.provider() == config.provider(),
{
}

/// Each bound on the client version becomes what it was given as, the one apart from the other.
/// Nothing else changes.
pub proof fn law_with_client_ver_range_sets_both_bounds<T: TimeProvider>(
    config: RealityServerConfig<T>,
    min: Option<[u8; 3]>,
    max: Option<[u8; 3]>,
    set: RealityServerConfig<T>,
)
    requires
        call_ensures(RealityServerConfig::<T>::with_client_ver_range, (config, min, max), set),
    ensures
        min is None ==> set@.min_client_ver is None,
        min matches Some(v) ==> set@.min_client_ver == Some(v@),
        max is None ==> set@.max_client_ver is None,
        max matches Some(v) ==> set@.max_client_ver == Some(v@),
        set@.private_key == config@.private_key,
        set@.short_ids == config@.short_ids,
        set@.server_names == config@.server_names,
        set@.max_time_diff == config@.max_time_diff,
        set.provider() == config.provider(),
{
}

/// Changing the clock changes nothing but the clock.
pub proof fn law_with_time_provider_changes_the_clock_only<T: TimeProvider, U: TimeProvider>(
    config: RealityServerConfig<T>,
    time_provider: Arc<U>,
    set: RealityServerConfig<U>,
)
    requires
        call_ensures(
            RealityServerConfig::<T>::with_time_provider::<U>,
            (config, time_provider),
            set,
        ),
    ensures
        set.provider() == *time_provider,
        set@.private_key == config@.private_key,
        set@.short_ids == config@.short_ids,
        set@.server_names == config@.server_names,
        set@.max_time_diff == config@.max_time_diff,
        set@.min_client_ver == config@.min_client_ver,
        set@.max_client_ver == config@.max_client_ver,
{
}

/// The key comes back as it was given.
pub proof fn law_private_key_comes_back(
    private_key: [u8; 32],
    config: RealityServerConfig,
    key: &[u8; 32],
)
    requires
        call_ensures(RealityServerConfig::new, (private_key,), config),
        call_ensures(RealityServerConfig::<DefaultTimeProvider>::private_key, (&config,), key),
    ensures
        key@ == private_key@,
{
}

/// A configuration tells its bounds, and the time by its own clock.
pub proof fn law_config_tells_its_bounds<T: TimeProvider>(
    config: RealityServerConfig<T>,
    key: &[u8; 32],
    max_time_diff: Option<Duration>,
    min: Option<[u8; 3]>,
    max: Option<[u8; 3]>,
    now: Option<UnixTime>,
)
    requires
        call_ensures(RealityServerConfig::<T>::private_key, (&config,), key),
        call_ensures(RealityServerConfig::<T>::max_time_diff, (&config,), max_time_diff),
        call_ensures(RealityServerConfig::<T>::min_client_ver, (&config,), min),
        call_ensures(RealityServerConfig::<T>::max_client_ver, (&config,), max),
        call_ensures(RealityServerConfig::<T>::current_time, (&config,), now),
    ensures
        key@ == config@.private_key,
        max_time_diff is None <==> config@.max_time_diff is None,
        max_time_diff matches Some(span) ==> config@.max_time_diff == Some(span@) && span@ > 0,
        min is None <==> config@.min_client_ver is None,
        min matches Some(v) ==> config@.min_client_ver == Some(v@),
        max is None <==> config@.max_client_ver is None,
        max matches Some(v) ==> config@.max_client_ver == Some(v@),
        call_ensures(T::current_time, (&config.provider(),), now),
{
}

/// An allow-list that has an entry lets through its entries and nothing else, whatever its size;
/// one that has none lets everything through.
pub proof fn law_allow_lists_let_through_their_entries<T: TimeProvider>(
    config: RealityServerConfig<T>,
    name: &str,
    name_allowed: bool,
    id: &[u8; 8],
    id_allowed: bool,
)
    requires
        call_ensures(RealityServerConfig::<T>::allows_server_name, (&config, name), name_allowed),
        call_ensures(RealityServerConfig::<T>::allows_short_id, (&config, id), id_allowed),
    ensures
        name_allowed <==> listed_or_unlisted(config@.server_names, name@),
        id_allowed <==> listed_or_unlisted(config@.short_ids, id@),
{
    lemma_listed_or_unlisted(config@.server_names);
    lemma_listed_or_unlisted(config@.short_ids);
}

/// After the server names were replaced, a name is let through exactly if it is one of the new
/// ones or there are none.
pub proof fn law_replaced_server_names_decide<T: TimeProvider>(
    config: RealityServerConfig<T>,
    names: &[&str],
    replaced: RealityServerConfig<T>,
    name: &str,
    allowed: bool,
)
    requires
        call_ensures(RealityServerConfig::<T>::with_server_names, (config, names), replaced),
        call_ensures(RealityServerConfig::<T>::allows_server_name, (&replaced, name), allowed),
    ensures
        allowed <==> {
            ||| names@.len() == 0
            ||| exists|i: int| 0 <= i < names@.len() && (#[trigger] names@[i])@ == name@
        },
{
    law_with_server_names_lists_exactly_these(config, names, replaced);
    lemma_listed_or_unlisted(replaced@.server_names);
    if names@.len() > 0 {
        assert(replaced@.server_names.contains(names@[0]@));
    }
}

/// After the short IDs were replaced, an ID is let through exactly if it is the zero-filled form
/// of one of the new ones or there are none.
pub proof fn law_replaced_short_ids_decide<T: TimeProvider>(
    config: RealityServerConfig<T>,
    short_ids: &[&[u8]],
    replaced: RealityServerConfig<T>,
    id: &[u8; 8],
    allowed: bool,
)
    requires
        call_ensures(
            RealityServerConfig::<T>::with_short_ids,
            (config, short_ids),
            Ok::<RealityServerConfig<T>, RealityServerError>(replaced),
        ),
        call_ensures(RealityServerConfig::<T>::allows_short_id, (&replaced, id), allowed),
    ensures
        allowed <==> {
            ||| short_ids@.len() == 0
            ||| exists|i: int|
                0 <= i < short_ids@.len() && zero_filled(id@, (#[trigger] short_ids@[i])@)
        },
{
    law_with_short_ids_lists_exactly_these(config, short_ids, Ok(replaced));
    lemma_listed_or_unlisted(replaced@.short_ids);
    if short_ids@.len() > 0 {
        lemma_padded_is_zero_filled(short_ids@[0]@);
        assert(zero_filled(padded(short_ids@[0]@), short_ids@[0]@));
        assert(replaced@.short_ids.contains(padded(short_ids@[0]@)));
    }
}

/// A copy says what the configuration says and reads the same clock.
pub proof fn law_config_copies_are_alike<T: TimeProvider>(
    config: RealityServerConfig<T>,
    copy: RealityServerConfig<T>,
)
    requires
        call_ensures(RealityServerConfig::<T>::clone, (&config,), copy),
    ensures
        copy@ == config@,
        copy.provider() == config.provider(),
{
}

/// The padded form of a short ID is its zero-filled form, and the only one.
pub(crate) proof fn lemma_padded_is_zero_filled(short: Seq<u8>)
    ensures
        forall|long: Seq<u8>| #[trigger] zero_filled(long, short) <==> long == padded(short),
{
    assert forall|long: Seq<u8>| zero_filled(long, short) implies #[trigger] zero_filled(
        long,
        short,
    ) && long == padded(short) by {
        assert(long =~= padded(short));
    }
    assert(zero_filled(padded(short), short));
}

/// A set that has no entry is empty.
pub(crate) proof fn lemma_listed_or_unlisted<A>(list: Set<A>)
    ensures
        list.is_empty() <==> !(exists|entry: A| list.contains(entry)),
{
    if !(exists|entry: A| list.contains(entry)) {
        assert(list =~= Set::empty());
    }
}

} // verus!
