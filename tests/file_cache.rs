use std::collections::HashMap;
use std::time::Duration;
use strawberry_runtime::cache_model::{CacheChannel, CacheError, CacheRecord, IoOutcome};
use strawberry_runtime::config::{FileCacheChannelConfig, FileCacheConfig};
use strawberry_runtime::factory::{empty_channel, SingletonFileCacheManagerFactory};
use strawberry_runtime::file_cache::DefaultFileCacheManager;

/// A stand-in for the file system: blob and descriptor contents by path.
#[derive(Default)]
struct Disk {
    files: HashMap<String, Vec<u8>>,
    descriptors: HashMap<String, CacheChannel>,
}

fn cache(
    m: &mut DefaultFileCacheManager,
    disk: &mut Disk,
    tag: String,
    sentence: String,
    bytes: &Vec<u8>,
) -> Result<(), CacheError> {
    let target = m.cache_target(&tag);
    disk.files.insert(target.path.clone(), bytes.clone());
    m.complete_cache(tag, sentence, bytes, &target, IoOutcome::Done(()))
}

fn fetch(m: &DefaultFileCacheManager, disk: &Disk, tag: &String) -> Result<Vec<u8>, CacheError> {
    let path = m.locate(tag)?;
    let read = disk.files.get(&path).map(|b| IoOutcome::Done(b.clone()));
    DefaultFileCacheManager::finish_fetch(path, read)
}

fn flush(m: &mut DefaultFileCacheManager, disk: &mut Disk, tag: &String) -> Result<(), CacheError> {
    let path = m.flush(tag)?;
    disk.files.remove(&path);
    Ok(())
}

fn persist(m: &mut DefaultFileCacheManager, disk: &mut Disk) -> Result<(), CacheError> {
    match m.snapshot() {
        None => Ok(()),
        Some(channel) => {
            disk.descriptors.insert(m.channel_path(), channel);
            m.finish_persist(IoOutcome::Done(()))
        }
    }
}

fn config() -> FileCacheConfig {
    FileCacheConfig {
        base_path: "file_cache_test".to_string(),
        auto_save_interval: Duration::from_secs(10),
        channels: Some(vec![
            FileCacheChannelConfig { name: "test-channel-1".to_string(), extension: None },
            FileCacheChannelConfig {
                name: "test-channel-2".to_string(),
                extension: Some("extension".to_string()),
            },
        ]),
    }
}

/// Opens a channel the way the runtime does at start-up: from its descriptor
/// when one was persisted, else empty.
fn open_channel(
    factory: &SingletonFileCacheManagerFactory<DefaultFileCacheManager>,
    disk: &Disk,
    name: &str,
    extension: Option<String>,
) -> DefaultFileCacheManager {
    let name = name.to_string();
    let channel = match disk.descriptors.get(&factory.get_channel_path(&name)) {
        Some(c) => c.clone(),
        None => empty_channel(name.clone(), extension),
    };
    DefaultFileCacheManager::new(
        factory.channel_dir(&name),
        factory.config().auto_save_interval,
        channel,
    )
}

fn initialize_factory(disk: &Disk) -> SingletonFileCacheManagerFactory<DefaultFileCacheManager> {
    let mut factory = SingletonFileCacheManagerFactory::new(config());
    for c in config().channels.unwrap() {
        let m = open_channel(&factory, disk, &c.name, c.extension.clone());
        factory.register(c.name, m);
    }
    factory
}

fn test_data() -> Vec<u8> {
    "http world, this is the file cache test\n".repeat(10086 ^ 2).to_string().into_bytes()
}

#[test]
fn test_file_cache_cache_fetch() {
    let mut disk = Disk::default();
    let mut m = open_channel(&initialize_factory(&disk), &disk, "test-channel-1", None);
    let data = test_data();
    cache(&mut m, &mut disk, "test-tag".to_string(), "test-sentence".to_string(), &data).unwrap();
    let fetched = fetch(&m, &disk, &"test-tag".to_string()).unwrap();
    assert_eq!(data, fetched);
}

#[test]
fn test_file_cache_cache_fetch_with_extension() {
    let mut disk = Disk::default();
    let factory = initialize_factory(&disk);
    let mut m = open_channel(&factory, &disk, "test-channel-2", Some("extension".to_string()));
    let data = test_data();
    cache(&mut m, &mut disk, "test-tag".to_string(), "test-sentence".to_string(), &data).unwrap();
    let fetched = fetch(&m, &disk, &"test-tag".to_string()).unwrap();
    assert_eq!(data, fetched);
    let path = m.locate(&"test-tag".to_string()).unwrap();
    assert!(path.starts_with("file_cache_test/test-channel-2/"));
    assert!(path.ends_with(".extension"));
}

#[test]
fn test_file_cache_cache_flush() {
    let mut disk = Disk::default();
    let mut m = open_channel(&initialize_factory(&disk), &disk, "test-channel-1", None);
    let data = test_data();
    cache(&mut m, &mut disk, "test-tag".to_string(), "test-sentence".to_string(), &data).unwrap();
    let fetched = fetch(&m, &disk, &"test-tag".to_string()).unwrap();
    assert_eq!(data, fetched);
    flush(&mut m, &mut disk, &"test-tag".to_string()).unwrap();
    let fetched = fetch(&m, &disk, &"test-tag".to_string());
    assert!(fetched.is_err());
}

#[test]
fn test_file_cache_persist() {
    let data = test_data();
    let mut disk = Disk::default();
    for i in 0..10 {
        {
            let factory = initialize_factory(&disk);
            let mut channel1 = open_channel(&factory, &disk, "test-channel-1", None);
            cache(
                &mut channel1,
                &mut disk,
                format!("test-tag-{}", i),
                format!("test-sentence-{}", i),
                &data,
            )
            .unwrap();
            let fetched = fetch(&channel1, &disk, &format!("test-tag-{}", i)).unwrap();
            assert_eq!(data, fetched);
            let persisted = persist(&mut channel1, &mut disk);
            assert!(persisted.is_ok());
        }
        {
            let factory = initialize_factory(&disk);
            let channel1 = open_channel(&factory, &disk, "test-channel-1", None);
            let fetched = fetch(&channel1, &disk, &format!("test-tag-{}", i));
            assert!(fetched.is_ok());
            assert_eq!(fetched.unwrap(), data);
        }
    }
}

#[test]
fn channel_scenario_cache_update_flush() {
    let mut disk = Disk::default();
    let mut m = DefaultFileCacheManager::new(
        "base/c1".to_string(),
        Duration::from_secs(10),
        empty_channel("c1".to_string(), None),
    );
    let a = "a".to_string();
    cache(&mut m, &mut disk, a.clone(), "v1".to_string(), &vec![1, 2, 3]).unwrap();
    assert_eq!(fetch(&m, &disk, &a).unwrap(), vec![1, 2, 3]);
    cache(&mut m, &mut disk, a.clone(), "v2".to_string(), &vec![4, 5]).unwrap();
    assert_eq!(fetch(&m, &disk, &a).unwrap(), vec![4, 5]);
    let path = m.locate(&a).unwrap();
    let exists = disk.files.contains_key(&path);
    assert_eq!(m.should_update(&a, &"v2".to_string(), exists), Ok(false));
    assert_eq!(m.should_update(&a, &"v3".to_string(), exists), Ok(true));
    flush(&mut m, &mut disk, &a).unwrap();
    assert_eq!(fetch(&m, &disk, &a), Err(CacheError::TagNotExist("a".to_string())));
    assert!(!disk.files.contains_key(&path));
}

#[test]
fn factory_missing_channel_is_manager_not_exist() {
    let disk = Disk::default();
    let factory = initialize_factory(&disk);
    let missing = "missing".to_string();
    assert!(matches!(
        factory.get_with_name(&missing),
        Err(CacheError::ManagerNotExist(n)) if n == "missing"
    ));
    assert!(factory.get_with_name(&"test-channel-1".to_string()).is_ok());
}

#[test]
fn factory_registers_a_name_once() {
    let mut factory: SingletonFileCacheManagerFactory<u32> = SingletonFileCacheManagerFactory::new(config());
    assert!(factory.register("c".to_string(), 1));
    assert!(!factory.register("c".to_string(), 2));
    assert_eq!(*factory.get_with_name(&"c".to_string()).unwrap(), 1);
    assert_eq!(factory.len(), 1);
    assert!(factory.contains(&"c".to_string()));
    assert!(!factory.contains(&"d".to_string()));
}

#[test]
fn factory_paths() {
    let factory: SingletonFileCacheManagerFactory<u32> = SingletonFileCacheManagerFactory::new(config());
    let name = "ch".to_string();
    assert_eq!(factory.channel_dir(&name), "file_cache_test/ch");
    assert_eq!(factory.get_channel_path(&name), "file_cache_test/ch/channel.rkyv");
}

#[test]
fn should_update_unknown_tag_is_not_found() {
    let m = DefaultFileCacheManager::new(
        "d".to_string(),
        Duration::from_secs(1),
        empty_channel("c".to_string(), None),
    );
    assert_eq!(
        m.should_update(&"x".to_string(), &"s".to_string(), true),
        Err(CacheError::TagNotExist("x".to_string()))
    );
}

#[test]
fn should_update_when_blob_missing() {
    let mut disk = Disk::default();
    let mut m = DefaultFileCacheManager::new(
        "d".to_string(),
        Duration::from_secs(1),
        empty_channel("c".to_string(), None),
    );
    cache(&mut m, &mut disk, "t".to_string(), "s".to_string(), &vec![7]).unwrap();
    assert_eq!(m.should_update(&"t".to_string(), &"s".to_string(), false), Ok(true));
    assert_eq!(m.should_update(&"t".to_string(), &"s".to_string(), true), Ok(false));
}

#[test]
fn failed_write_leaves_record_untouched() {
    let mut disk = Disk::default();
    let mut m = DefaultFileCacheManager::new(
        "d".to_string(),
        Duration::from_secs(1),
        empty_channel("c".to_string(), None),
    );
    cache(&mut m, &mut disk, "t".to_string(), "s1".to_string(), &vec![1, 2]).unwrap();
    m.finish_persist(IoOutcome::Done(())).unwrap();
    let before = m.record(&"t".to_string()).unwrap();
    let target = m.cache_target(&"t".to_string());
    let r = m.complete_cache(
        "t".to_string(),
        "s2".to_string(),
        &vec![9, 9, 9],
        &target,
        IoOutcome::Failed("disk full".to_string()),
    );
    assert_eq!(r, Err(CacheError::IO("disk full".to_string())));
    let r = m.complete_cache(
        "t".to_string(),
        "s2".to_string(),
        &vec![9, 9, 9],
        &target,
        IoOutcome::TimedOut("deadline has elapsed".to_string()),
    );
    assert_eq!(r, Err(CacheError::Timeout("deadline has elapsed".to_string())));
    assert_eq!(m.record(&"t".to_string()).unwrap(), before);
    assert!(!m.is_dirty());
}

#[test]
fn known_tag_keeps_its_filename() {
    let mut disk = Disk::default();
    let mut m = DefaultFileCacheManager::new(
        "d".to_string(),
        Duration::from_secs(1),
        empty_channel("c".to_string(), Some("bin".to_string())),
    );
    cache(&mut m, &mut disk, "t".to_string(), "s1".to_string(), &vec![1]).unwrap();
    let first = m.record(&"t".to_string()).unwrap();
    assert_eq!(first.filename.len(), 36);
    assert_eq!(first.size, 1);
    cache(&mut m, &mut disk, "t".to_string(), "s2".to_string(), &vec![1, 2, 3, 4]).unwrap();
    let second = m.record(&"t".to_string()).unwrap();
    assert_eq!(second.filename, first.filename);
    assert_eq!(second.size, 4);
    assert_eq!(second.sentence, "s2");
    assert_eq!(m.locate(&"t".to_string()).unwrap(), format!("d/{}.bin", first.filename));
}

#[test]
fn new_tags_get_distinct_generated_names() {
    let m = DefaultFileCacheManager::new(
        "d".to_string(),
        Duration::from_secs(1),
        empty_channel("c".to_string(), None),
    );
    let a = m.cache_target(&"a".to_string());
    let b = m.cache_target(&"b".to_string());
    assert_eq!(a.filename.len(), 36);
    assert_ne!(a.filename, b.filename);
    assert_eq!(a.path, format!("d/{}", a.filename));
}

#[test]
fn distinct_tags_do_not_disturb_each_other() {
    let mut disk = Disk::default();
    let mut m = DefaultFileCacheManager::new(
        "d".to_string(),
        Duration::from_secs(1),
        empty_channel("c".to_string(), None),
    );
    cache(&mut m, &mut disk, "x".to_string(), "sx".to_string(), &vec![1, 1]).unwrap();
    cache(&mut m, &mut disk, "y".to_string(), "sy".to_string(), &vec![2, 2, 2]).unwrap();
    assert_eq!(fetch(&m, &disk, &"x".to_string()).unwrap(), vec![1, 1]);
    assert_eq!(fetch(&m, &disk, &"y".to_string()).unwrap(), vec![2, 2, 2]);
    assert_eq!(m.len(), 2);
}

#[test]
fn same_tag_last_writer_wins() {
    let mut disk = Disk::default();
    let mut m = DefaultFileCacheManager::new(
        "d".to_string(),
        Duration::from_secs(1),
        empty_channel("c".to_string(), None),
    );
    cache(&mut m, &mut disk, "t".to_string(), "s1".to_string(), &vec![1, 1, 1]).unwrap();
    cache(&mut m, &mut disk, "t".to_string(), "s2".to_string(), &vec![2]).unwrap();
    assert_eq!(fetch(&m, &disk, &"t".to_string()).unwrap(), vec![2]);
    assert_eq!(m.record(&"t".to_string()).unwrap().sentence, "s2");
    assert_eq!(disk.files.len(), 1);
}

#[test]
fn fetch_of_missing_blob_is_file_not_exist() {
    let mut disk = Disk::default();
    let mut m = DefaultFileCacheManager::new(
        "d".to_string(),
        Duration::from_secs(1),
        empty_channel("c".to_string(), None),
    );
    cache(&mut m, &mut disk, "t".to_string(), "s".to_string(), &vec![3]).unwrap();
    let path = m.locate(&"t".to_string()).unwrap();
    disk.files.clear();
    assert_eq!(fetch(&m, &disk, &"t".to_string()), Err(CacheError::FileNotExist(path.clone())));
    assert_eq!(
        DefaultFileCacheManager::finish_fetch(path.clone(), Some(IoOutcome::Failed("denied".to_string()))),
        Err(CacheError::IO("denied".to_string()))
    );
    assert_eq!(
        DefaultFileCacheManager::finish_path(path.clone(), false),
        Err(CacheError::FileNotExist(path.clone()))
    );
    assert_eq!(DefaultFileCacheManager::finish_path(path.clone(), true), Ok(path));
}

#[test]
fn flush_of_unknown_tag_changes_nothing() {
    let mut m = DefaultFileCacheManager::new(
        "d".to_string(),
        Duration::from_secs(1),
        empty_channel("c".to_string(), None),
    );
    assert_eq!(m.flush(&"t".to_string()), Err(CacheError::TagNotExist("t".to_string())));
    assert!(!m.is_dirty());
    assert!(m.snapshot().is_none());
}

#[test]
fn persist_is_gated_by_the_dirty_flag() {
    let mut disk = Disk::default();
    let mut m = DefaultFileCacheManager::new(
        "d".to_string(),
        Duration::from_secs(1),
        empty_channel("c".to_string(), Some("e".to_string())),
    );
    assert!(m.snapshot().is_none());
    cache(&mut m, &mut disk, "t".to_string(), "s".to_string(), &vec![1]).unwrap();
    assert!(m.is_dirty());
    let snap = m.snapshot().unwrap();
    assert_eq!(snap.name, "c");
    assert_eq!(snap.extension, Some("e".to_string()));
    assert_eq!(snap.records.len(), 1);
    assert_eq!(
        m.finish_persist(IoOutcome::Failed("read-only".to_string())),
        Err(CacheError::IO("read-only".to_string()))
    );
    assert!(m.is_dirty());
    persist(&mut m, &mut disk).unwrap();
    assert!(!m.is_dirty());
    assert_eq!(m.channel_path(), "d/channel.rkyv");
}

#[test]
fn loading_keeps_the_last_record_of_a_tag() {
    let rec = |tag: &str, file: &str, size: usize| CacheRecord {
        tag: tag.to_string(),
        filename: file.to_string(),
        size,
        sentence: "s".to_string(),
    };
    let channel = CacheChannel {
        name: "c".to_string(),
        extension: None,
        records: vec![rec("a", "f1", 1), rec("b", "f2", 2), rec("a", "f3", 3)],
    };
    let m = DefaultFileCacheManager::new("d".to_string(), Duration::from_secs(1), channel);
    assert_eq!(m.len(), 2);
    assert_eq!(m.record(&"a".to_string()).unwrap(), rec("a", "f3", 3));
    assert_eq!(m.name(), "c");
    assert!(!m.is_dirty());
    assert_eq!(m.auto_save_interval(), Duration::from_secs(1));
}

#[test]
fn cache_error_messages() {
    assert_eq!(CacheError::IO("x".to_string()).to_string(), "IO Error: x");
    assert_eq!(CacheError::FileNotExist("p".to_string()).to_string(), "File p does not exist");
    assert_eq!(CacheError::TagNotExist("t".to_string()).to_string(), "Tag t does not exist");
    assert_eq!(
        CacheError::ManagerNotExist("m".to_string()).to_string(),
        "Cache Manager m does not exist"
    );
    assert_eq!(
        CacheError::Lock("k".to_string()).to_string(),
        "An locking error occurs when accessing k"
    );
    assert_eq!(CacheError::Serialization("s".to_string()).to_string(), "Serialize Error: s");
    assert_eq!(CacheError::Timeout("t".to_string()).to_string(), "Timeout: t");
}
