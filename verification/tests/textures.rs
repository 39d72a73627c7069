use imgui_app::{TextureRegistry, TexturesPersistent};

#[test]
fn read_back_what_was_inserted() {
    let mut registry: TextureRegistry<&str> = TextureRegistry::new();
    registry.insert(1, "one");
    registry.insert(2, "two");
    assert_eq!(registry.get(1), Some(&"one"));
    assert_eq!(registry.get(2), Some(&"two"));
    assert_eq!(registry.get(3), None);
    registry.insert(1, "uno");
    assert_eq!(registry.get(1), Some(&"uno"));
}

#[test]
fn removed_texture_is_gone() {
    let mut registry: TextureRegistry<u32> = TextureRegistry::new();
    registry.insert(10, 100);
    registry.insert(11, 110);
    assert_eq!(registry.remove(10), Some(100));
    assert_eq!(registry.get(10), None);
    assert_eq!(registry.get(11), Some(&110));
    assert_eq!(registry.remove(10), None);
}

#[test]
fn take_all_empties_registry() {
    let mut registry: TextureRegistry<u32> = TextureRegistry::new();
    for id in 0..5u64 {
        registry.insert(id, id as u32 * 10);
    }
    let mut ids = registry.ids();
    ids.sort();
    assert_eq!(ids, vec![0, 1, 2, 3, 4]);
    let mut all = registry.take_all();
    all.sort();
    assert_eq!(all, vec![0, 10, 20, 30, 40]);
    assert!(registry.ids().is_empty());
    assert_eq!(registry.get(3), None);
    assert!(registry.take_all().is_empty());
}

#[test]
fn reads_back_only_what_is_still_recorded() {
    let mut registry: TextureRegistry<u32> = TextureRegistry::new();
    registry.insert(1, 10);
    registry.insert(2, 20);
    registry.take_all();
    registry.insert(2, 21);
    registry.insert(3, 30);
    registry.remove(3);
    registry.insert(4, 40);
    registry.insert(4, 41);
    assert_eq!(registry.get(1), None);
    assert_eq!(registry.get(2), Some(&21));
    assert_eq!(registry.get(3), None);
    assert_eq!(registry.get(4), Some(&41));
}

#[test]
fn persistent_textures_start_empty_with_the_size_limit() {
    let textures = TexturesPersistent::with_max_size(2048);
    assert_eq!(textures.max_size(), 2048);
    assert!(textures.get_texture_info(0).is_none());
}
