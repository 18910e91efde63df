use reset_registry::volume::{get_volume_level, set_volume};

#[test]
fn set_volume_broadcasts_to_every_channel() {
    let mut levels = vec![10, 20, 30];
    set_volume(&mut levels, 42_000);
    assert_eq!(levels, vec![42_000, 42_000, 42_000]);
}

#[test]
fn set_volume_keeps_an_empty_device_empty() {
    let mut levels: Vec<u32> = Vec::new();
    set_volume(&mut levels, 7);
    assert!(levels.is_empty());
}

#[test]
fn get_volume_level_reads_the_first_channel() {
    assert_eq!(get_volume_level(&[65_536, 1, 2]), 65_536);
}
