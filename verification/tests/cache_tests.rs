use everything_browser::cache::ThumbnailCache;

#[test]
fn new_cache_is_empty() {
    let c = ThumbnailCache::new(3);
    assert_eq!(c.len(), 0);
    assert_eq!(c.peek("/a.png", 64), None);
}

#[test]
fn put_then_peek() {
    let mut c = ThumbnailCache::new(3);
    assert_eq!(c.put("/a.png".to_string(), 64, 11), None);
    assert_eq!(c.peek("/a.png", 64), Some(11));
    assert_eq!(c.len(), 1);
}

#[test]
fn key_is_path_and_size() {
    let mut c = ThumbnailCache::new(3);
    c.put("/a.png".to_string(), 64, 11);
    c.put("/a.png".to_string(), 128, 12);
    assert_eq!(c.peek("/a.png", 64), Some(11));
    assert_eq!(c.peek("/a.png", 128), Some(12));
    assert_eq!(c.peek("/a.png", 32), None);
    assert_eq!(c.peek("/b.png", 64), None);
    assert_eq!(c.len(), 2);
}

#[test]
fn put_on_same_key_replaces() {
    let mut c = ThumbnailCache::new(3);
    assert_eq!(c.put("/a.png".to_string(), 64, 11), None);
    assert_eq!(c.put("/a.png".to_string(), 64, 22), Some(11));
    assert_eq!(c.peek("/a.png", 64), Some(22));
    assert_eq!(c.len(), 1);
}

#[test]
fn over_capacity_evicts_least_recently_used() {
    let mut c = ThumbnailCache::new(3);
    c.put("/a.png".to_string(), 64, 1);
    c.put("/b.png".to_string(), 64, 2);
    c.put("/c.png".to_string(), 64, 3);
    c.put("/d.png".to_string(), 64, 4);
    assert_eq!(c.len(), 3);
    assert_eq!(c.peek("/a.png", 64), None);
    assert_eq!(c.peek("/b.png", 64), Some(2));
    assert_eq!(c.peek("/c.png", 64), Some(3));
    assert_eq!(c.peek("/d.png", 64), Some(4));
    c.put("/e.png".to_string(), 64, 5);
    assert_eq!(c.peek("/b.png", 64), None);
    assert_eq!(c.peek("/c.png", 64), Some(3));
}

#[test]
fn peek_does_not_count_as_use() {
    let mut c = ThumbnailCache::new(3);
    c.put("/a.png".to_string(), 64, 1);
    c.put("/b.png".to_string(), 64, 2);
    c.put("/c.png".to_string(), 64, 3);
    assert_eq!(c.peek("/a.png", 64), Some(1));
    c.put("/d.png".to_string(), 64, 4);
    assert_eq!(c.peek("/a.png", 64), None);
    assert_eq!(c.peek("/b.png", 64), Some(2));
}

#[test]
fn put_on_existing_key_counts_as_use() {
    let mut c = ThumbnailCache::new(3);
    c.put("/a.png".to_string(), 64, 1);
    c.put("/b.png".to_string(), 64, 2);
    c.put("/c.png".to_string(), 64, 3);
    assert_eq!(c.put("/a.png".to_string(), 64, 10), Some(1));
    c.put("/d.png".to_string(), 64, 4);
    assert_eq!(c.len(), 3);
    assert_eq!(c.peek("/a.png", 64), Some(10));
    assert_eq!(c.peek("/b.png", 64), None);
    assert_eq!(c.peek("/c.png", 64), Some(3));
}

#[test]
fn capacity_one() {
    let mut c = ThumbnailCache::new(1);
    c.put("/a.png".to_string(), 64, 1);
    c.put("/b.png".to_string(), 64, 2);
    assert_eq!(c.len(), 1);
    assert_eq!(c.peek("/a.png", 64), None);
    assert_eq!(c.peek("/b.png", 64), Some(2));
}

#[test]
fn clear_drops_everything() {
    let mut c = ThumbnailCache::new(3);
    c.put("/a.png".to_string(), 64, 1);
    c.put("/b.png".to_string(), 64, 2);
    c.clear();
    assert_eq!(c.len(), 0);
    assert_eq!(c.peek("/a.png", 64), None);
    c.put("/c.png".to_string(), 64, 3);
    assert_eq!(c.len(), 1);
}

#[test]
fn five_hundred_and_one_entries_keep_the_newest_five_hundred() {
    let mut c = ThumbnailCache::new(500);
    for i in 0..501 {
        c.put(format!("/img_{}.png", i), 64, i as isize);
    }
    assert_eq!(c.len(), 500);
    assert_eq!(c.peek("/img_0.png", 64), None);
    assert_eq!(c.peek("/img_1.png", 64), Some(1));
    assert_eq!(c.peek("/img_500.png", 64), Some(500));
}
