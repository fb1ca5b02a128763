use tunnel_forward::context::ContextCache;

/// One request, as a caller makes it: load if the cache asks for it, then
/// take what the cache holds.
fn request(
    cache: &mut ContextCache<String, String>,
    loads: &mut u32,
    load: Result<String, String>,
) -> Result<String, String> {
    if cache.needs_load() {
        *loads += 1;
        cache.store(load);
    }
    cache.get().expect("the cache holds an outcome after a load").clone()
}

#[test]
fn a_new_cache_needs_its_load() {
    let cache: ContextCache<u32, u32> = ContextCache::new();
    assert!(cache.needs_load());
    assert_eq!(cache.get(), None);
}

#[test]
fn the_configuration_is_loaded_once() {
    let mut cache = ContextCache::new();
    let mut loads = 0;
    let first = request(&mut cache, &mut loads, Ok("roots of the system".to_string()));
    let second = request(&mut cache, &mut loads, Ok("other roots".to_string()));
    let third = request(&mut cache, &mut loads, Err("unreadable".to_string()));
    assert_eq!(loads, 1);
    assert_eq!(first, Ok("roots of the system".to_string()));
    assert_eq!(second, first);
    assert_eq!(third, first);
    assert!(!cache.needs_load());
}

#[test]
fn a_failed_load_is_not_tried_again() {
    let mut cache = ContextCache::new();
    let mut loads = 0;
    let first = request(&mut cache, &mut loads, Err("entity not found".to_string()));
    let second = request(&mut cache, &mut loads, Ok("roots of the system".to_string()));
    assert_eq!(loads, 1);
    assert_eq!(first, Err("entity not found".to_string()));
    assert_eq!(second, first);
    assert!(!cache.needs_load());
}

#[test]
fn store_keeps_the_first_outcome() {
    let mut cache: ContextCache<u32, u32> = ContextCache::new();
    cache.store(Ok(1));
    cache.store(Ok(2));
    cache.store(Err(3));
    assert_eq!(cache.get(), Some(&Ok(1)));
    let mut cache: ContextCache<u32, u32> = ContextCache::new();
    cache.store(Err(3));
    cache.store(Ok(1));
    assert_eq!(cache.get(), Some(&Err(3)));
}
