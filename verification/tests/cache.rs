use token_exchange::cache::{Cache, Directive, KeyedCache, Lifetime, Resumption, KEY_LIFETIME_SECONDS};

const TTL: u64 = 900;

#[test]
fn key_material_is_served_for_fifteen_minutes() {
    assert_eq!(KEY_LIFETIME_SECONDS, 900);
    let mut key: Cache<u32> = Cache::for_signing_key();
    key.complete(1, 1000);
    assert_eq!(key.value(1899), Some(&1));
    assert_eq!(key.value(1900), None);
    let mut sets: KeyedCache<u32> = KeyedCache::for_key_sets();
    sets.complete("issuer", 1, 1000);
    assert_eq!(sets.value("issuer", 1899), Some(&1));
    assert_eq!(sets.value("issuer", 1900), None);
    let mut configuration: Cache<u32> = Cache::for_configuration();
    configuration.complete(1, 1000);
    assert_eq!(configuration.value(u64::MAX), Some(&1));
}

#[test]
fn cold_cache_tells_the_first_caller_to_fetch() {
    let mut cache: Cache<String> = Cache::new(Lifetime::Seconds(TTL));
    assert_eq!(cache.value(0), None);
    assert_eq!(cache.request(0), Directive::Fetch);
}

#[test]
fn callers_during_a_fetch_wait() {
    let mut cache: Cache<String> = Cache::new(Lifetime::Seconds(TTL));
    let mut fetches = 0;
    let mut waits = 0;
    for now in [5u64, 5, 6, 7, 7, 8] {
        match cache.request(now) {
            Directive::Fetch => fetches += 1,
            Directive::Wait(1) => waits += 1,
            other => panic!("{other:?}"),
        }
    }
    assert_eq!(fetches, 1);
    assert_eq!(waits, 5);
    assert_eq!(cache.resume(1, 8), Resumption::Wait);
    cache.complete("keys".to_string(), 9);
    for now in [9u64, 9, 10, 11, 11, 12] {
        assert_eq!(cache.resume(1, now), Resumption::Serve);
        assert_eq!(cache.request(now), Directive::Serve);
        assert_eq!(cache.value(now), Some(&"keys".to_string()));
    }
}

#[test]
fn value_is_served_until_its_lifetime_has_passed() {
    let mut cache: Cache<u32> = Cache::new(Lifetime::Seconds(TTL));
    assert_eq!(cache.request(100), Directive::Fetch);
    cache.complete(7, 100);
    assert_eq!(cache.request(100), Directive::Serve);
    assert_eq!(cache.request(500), Directive::Serve);
    assert_eq!(cache.request(999), Directive::Serve);
    assert_eq!(cache.value(999), Some(&7));
    assert_eq!(cache.value(1000), None);
    assert_eq!(cache.request(1000), Directive::Fetch);
}

#[test]
fn stale_value_is_fetched_once_and_the_new_one_reused() {
    let mut cache: Cache<u32> = Cache::new(Lifetime::Seconds(TTL));
    assert_eq!(cache.request(0), Directive::Fetch);
    cache.complete(1, 0);
    assert_eq!(cache.request(899), Directive::Serve);
    assert_eq!(cache.request(900), Directive::Fetch);
    assert_eq!(cache.request(900), Directive::Wait(2));
    assert_eq!(cache.request(2000), Directive::Wait(2));
    assert_eq!(cache.value(900), None);
    cache.complete(2, 905);
    assert_eq!(cache.request(905), Directive::Serve);
    assert_eq!(cache.request(1804), Directive::Serve);
    assert_eq!(cache.value(1804), Some(&2));
    assert_eq!(cache.request(1805), Directive::Fetch);
}

#[test]
fn stale_value_is_not_served_while_its_successor_is_fetched() {
    let mut cache: Cache<u32> = Cache::new(Lifetime::Seconds(TTL));
    assert_eq!(cache.request(0), Directive::Fetch);
    cache.complete(1, 0);
    assert_eq!(cache.request(901), Directive::Fetch);
    assert_eq!(cache.value(901), None);
    assert_eq!(cache.value(10), None);
    assert_eq!(cache.resume(2, 10), Resumption::Wait);
}

#[test]
fn failed_fetch_fails_those_who_waited_and_is_tried_again_by_the_next_caller() {
    let mut cache: Cache<u32> = Cache::new(Lifetime::Seconds(TTL));
    assert_eq!(cache.request(0), Directive::Fetch);
    assert_eq!(cache.request(1), Directive::Wait(1));
    assert_eq!(cache.request(1), Directive::Wait(1));
    cache.abandon();
    assert_eq!(cache.resume(1, 2), Resumption::Fail);
    assert_eq!(cache.resume(1, 3), Resumption::Fail);
    assert_eq!(cache.value(2), None);
    assert_eq!(cache.request(2), Directive::Fetch);
    assert_eq!(cache.resume(1, 2), Resumption::Fail);
    assert_eq!(cache.request(2), Directive::Wait(2));
    assert_eq!(cache.resume(2, 2), Resumption::Wait);
    cache.complete(3, 4);
    assert_eq!(cache.resume(2, 5), Resumption::Serve);
    assert_eq!(cache.resume(1, 5), Resumption::Serve);
    assert_eq!(cache.request(5), Directive::Serve);
}

#[test]
fn waiting_for_a_value_that_went_stale_meanwhile_fails() {
    let mut cache: Cache<u32> = Cache::new(Lifetime::Seconds(TTL));
    assert_eq!(cache.request(0), Directive::Fetch);
    assert_eq!(cache.request(0), Directive::Wait(1));
    cache.complete(3, 4);
    assert_eq!(cache.resume(1, 903), Resumption::Serve);
    assert_eq!(cache.resume(1, 904), Resumption::Fail);
}

#[test]
fn value_that_lives_forever_is_loaded_once() {
    let mut cache: Cache<&str> = Cache::new(Lifetime::Forever);
    assert_eq!(cache.request(0), Directive::Fetch);
    assert_eq!(cache.request(0), Directive::Wait(1));
    cache.complete("config", 3);
    assert_eq!(cache.request(3), Directive::Serve);
    assert_eq!(cache.request(u64::MAX), Directive::Serve);
    assert_eq!(cache.value(u64::MAX), Some(&"config"));
    assert_eq!(cache.value(0), Some(&"config"));
}

#[test]
fn lifetime_of_no_seconds_serves_nothing() {
    let mut cache: Cache<u32> = Cache::new(Lifetime::Seconds(0));
    assert_eq!(cache.request(10), Directive::Fetch);
    cache.complete(1, 10);
    assert_eq!(cache.value(10), None);
    assert_eq!(cache.request(10), Directive::Fetch);
}

#[test]
fn value_stored_near_the_end_of_time_stays_fresh() {
    let mut cache: Cache<u32> = Cache::new(Lifetime::Seconds(TTL));
    cache.complete(1, u64::MAX - 10);
    assert_eq!(cache.request(u64::MAX), Directive::Serve);
    assert_eq!(cache.value(u64::MAX - 10), Some(&1));
}

#[test]
fn clock_reading_before_the_store_counts_as_fresh() {
    let mut cache: Cache<u32> = Cache::new(Lifetime::Seconds(TTL));
    cache.complete(1, 50);
    assert_eq!(cache.request(40), Directive::Serve);
}

#[test]
fn fetches_are_numbered_in_turn() {
    let mut cache: Cache<u32> = Cache::new(Lifetime::Seconds(TTL));
    for round in 1..=5u64 {
        assert_eq!(cache.request(0), Directive::Fetch);
        assert_eq!(cache.request(0), Directive::Wait(round));
        assert_eq!(cache.resume(round, 0), Resumption::Wait);
        assert_eq!(cache.resume(round - 1, 0), Resumption::Fail);
        cache.abandon();
        assert_eq!(cache.resume(round, 0), Resumption::Fail);
    }
}

#[test]
fn keys_of_a_keyed_cache_do_not_share_a_fetch() {
    let mut cache: KeyedCache<u32> = KeyedCache::new(Lifetime::Seconds(TTL));
    assert_eq!(cache.request("https://a.example", 0), Directive::Fetch);
    assert_eq!(cache.request("https://a.example", 0), Directive::Wait(1));
    assert_eq!(cache.request("https://b.example", 0), Directive::Fetch);
    cache.complete("https://a.example", 1, 2);
    assert_eq!(cache.request("https://a.example", 3), Directive::Serve);
    assert_eq!(cache.resume("https://a.example", 1, 3), Resumption::Serve);
    assert_eq!(cache.request("https://b.example", 3), Directive::Wait(1));
    assert_eq!(cache.resume("https://b.example", 1, 3), Resumption::Wait);
    assert_eq!(cache.value("https://a.example", 3), Some(&1));
    assert_eq!(cache.value("https://b.example", 3), None);
    cache.complete("https://b.example", 2, 500);
    assert_eq!(cache.value("https://b.example", 1399), Some(&2));
    assert_eq!(cache.value("https://a.example", 1399), None);
    assert_eq!(cache.request("https://a.example", 1399), Directive::Fetch);
    assert_eq!(cache.request("https://b.example", 1399), Directive::Serve);
    assert_eq!(cache.request("https://b.example", 1400), Directive::Fetch);
}

#[test]
fn one_fetch_per_key_whatever_comes_in_between() {
    let mut cache: KeyedCache<u32> = KeyedCache::for_key_sets();
    let mut fetches_for_a = 0;
    for (key, now) in [("a", 0u64), ("b", 0), ("a", 1), ("c", 1), ("a", 1), ("b", 2), ("a", 3)] {
        if cache.request(key, now) == Directive::Fetch && key == "a" {
            fetches_for_a += 1;
        }
    }
    assert_eq!(fetches_for_a, 1);
}

#[test]
fn keyed_cache_fails_those_who_waited_and_retries() {
    let mut cache: KeyedCache<u32> = KeyedCache::new(Lifetime::Seconds(TTL));
    cache.abandon("https://a.example");
    assert_eq!(cache.resume("https://a.example", 0, 0), Resumption::Fail);
    assert_eq!(cache.request("https://a.example", 0), Directive::Fetch);
    assert_eq!(cache.request("https://a.example", 0), Directive::Wait(1));
    assert_eq!(cache.request("https://b.example", 0), Directive::Fetch);
    cache.abandon("https://a.example");
    assert_eq!(cache.resume("https://a.example", 1, 0), Resumption::Fail);
    assert_eq!(cache.resume("https://b.example", 1, 0), Resumption::Wait);
    assert_eq!(cache.value("https://a.example", 0), None);
    assert_eq!(cache.request("https://a.example", 1), Directive::Fetch);
    assert_eq!(cache.request("https://a.example", 1), Directive::Wait(2));
}

#[test]
fn keyed_cache_stores_a_value_that_nobody_asked_for() {
    let mut cache: KeyedCache<u32> = KeyedCache::new(Lifetime::Seconds(TTL));
    cache.complete("k", 9, 10);
    assert_eq!(cache.request("k", 10), Directive::Serve);
    assert_eq!(cache.value("k", 909), Some(&9));
    assert_eq!(cache.value("k", 910), None);
    assert_eq!(cache.value("", 10), None);
}
