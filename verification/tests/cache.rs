use session_service::cache::Cache;

const KEY: &str = "key";
const VALUE: &str = "value";

#[test]
fn ok() {
    let mut cache: Cache<String> = Cache::new();
    cache.insert(KEY, VALUE.to_string(), 10);

    assert_eq!(cache.get(KEY).unwrap(), VALUE);
}

#[test]
fn expiring() {
    let mut cache: Cache<String> = Cache::new();
    cache.insert(KEY, VALUE.to_string(), -1);

    assert_eq!(cache.get(KEY), None);
}

#[test]
fn payload() {
    #[derive(Debug, Clone)]
    struct Value {
        pub name: String,
    }

    let value = Value { name: VALUE.into() };

    let mut cache: Cache<Value> = Cache::new();
    cache.insert(KEY, value.clone(), 10);

    assert_eq!(cache.get(KEY).unwrap().name, VALUE);
}

#[test]
fn empty_cache_has_nothing() {
    let cache: Cache<String> = Cache::new();
    assert_eq!(cache.get(KEY), None);
    assert_eq!(cache.get_at(KEY, 0), None);
}

#[test]
fn zero_lifetime_is_never_read() {
    let mut cache: Cache<u32> = Cache::new();
    cache.insert_at(KEY, 7, 0, 1_000);
    assert_eq!(cache.get_at(KEY, 1_000), None);
    assert_eq!(cache.get_at(KEY, 1_001), None);
    cache.insert(KEY, 7, 0);
    assert_eq!(cache.get(KEY), None);
}

#[test]
fn entry_is_read_until_its_expiry() {
    let mut cache: Cache<u32> = Cache::new();
    cache.insert_at(KEY, 7, 10, 1_000);
    assert_eq!(cache.get_at(KEY, 1_000), Some(&7));
    assert_eq!(cache.get_at(KEY, 1_009), Some(&7));
    assert_eq!(cache.get_at(KEY, 1_010), None);
    assert_eq!(cache.get_at(KEY, 1_011), None);
    assert_eq!(cache.get_at(KEY, 0), Some(&7));
}

#[test]
fn second_insert_replaces_the_first() {
    let mut cache: Cache<String> = Cache::new();
    cache.insert(KEY, "first".to_string(), 10);
    cache.insert(KEY, "second".to_string(), 10);
    assert_eq!(cache.get(KEY).unwrap(), "second");

    cache.insert_at(KEY, "long".to_string(), 100, 1_000);
    cache.insert_at(KEY, "short".to_string(), 1, 1_000);
    assert_eq!(cache.get_at(KEY, 1_000).unwrap(), "short");
    assert_eq!(cache.get_at(KEY, 1_001), None);
}

#[test]
fn insert_leaves_other_keys_alone() {
    let mut cache: Cache<u32> = Cache::new();
    cache.insert_at("a", 1, 10, 0);
    cache.insert_at("b", 2, -10, 0);
    assert_eq!(cache.get_at("a", 5), Some(&1));
    assert_eq!(cache.get_at("b", 5), None);
    assert_eq!(cache.get_at("c", 5), None);
}

#[test]
fn expiry_saturates_at_the_ends_of_the_range() {
    let mut cache: Cache<u32> = Cache::new();
    cache.insert_at(KEY, 1, i64::MAX, 10);
    assert_eq!(cache.get_at(KEY, i64::MAX - 1), Some(&1));
    assert_eq!(cache.get_at(KEY, i64::MAX), None);
    cache.insert_at(KEY, 2, i64::MIN, -10);
    assert_eq!(cache.get_at(KEY, i64::MIN), None);
    cache.insert_at(KEY, 3, 1, i64::MAX);
    assert_eq!(cache.get_at(KEY, i64::MAX), None);
}
