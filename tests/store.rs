use std::collections::BTreeMap;

use rocks_registry::error::ErrorKind;
use rocks_registry::options::Options;
use rocks_registry::registry::Registry;
use rocks_registry::tasks::{
    CloseTask, ConnectTask, GetItemTask, GetKeysTask, RemoveItemTask, SetItemTask,
};
use rocks_registry::text::{decode_text, starts_with};

/// An in-memory engine: ordered key bytes to value bytes.
type Engine = BTreeMap<Vec<u8>, Vec<u8>>;

struct Store {
    reg: Registry<std::cell::RefCell<Engine>>,
}

impl Store {
    fn new() -> Store {
        Store { reg: Registry::new() }
    }

    fn connect(&mut self, path: &str, opts: Options) -> Result<u32, ErrorKind> {
        let task = ConnectTask::new(path.to_string(), opts);
        task.complete(&mut self.reg, Ok(std::cell::RefCell::new(Engine::new())))
            .map_err(|e| e.kind())
    }

    fn set_item(&self, h: u32, k: &str, v: &str) -> Result<(), ErrorKind> {
        let task = SetItemTask::new(h, k.to_string(), v.to_string());
        let engine = self.reg.get(task.db_id).map_err(|e| e.kind())?;
        engine
            .borrow_mut()
            .insert(task.key_bytes().to_vec(), task.value_bytes().to_vec());
        task.complete(Ok(())).map_err(|e| e.kind())
    }

    fn get_item(&self, h: u32, k: &str) -> Result<Option<String>, ErrorKind> {
        let task = GetItemTask::new(h, k.to_string());
        let engine = self.reg.get(task.db_id).map_err(|e| e.kind())?;
        let found = engine.borrow().get(task.key_bytes()).cloned();
        task.complete(Ok(found)).map_err(|e| e.kind())
    }

    fn remove_item(&self, h: u32, k: &str) -> Result<(), ErrorKind> {
        let task = RemoveItemTask::new(h, k.to_string());
        let engine = self.reg.get(task.db_id).map_err(|e| e.kind())?;
        engine.borrow_mut().remove(task.key_bytes());
        task.complete(Ok(())).map_err(|e| e.kind())
    }

    fn get_keys(&self, h: u32, prefix: Option<&str>) -> Result<Vec<String>, ErrorKind> {
        let task = GetKeysTask::new(h, prefix.map(|p| p.to_string()));
        let engine = self.reg.get(task.db_id).map_err(|e| e.kind())?;
        let keys: Vec<Vec<u8>> = engine.borrow().keys().cloned().collect();
        task.complete(Ok(keys)).map_err(|e| e.kind())
    }

    fn close(&mut self, h: u32) -> Result<(), ErrorKind> {
        let task = CloseTask::new(h);
        if let Ok(engine) = self.reg.get(task.db_id) {
            engine.borrow_mut().clear();
        }
        task.complete(&mut self.reg, Ok(())).map_err(|e| e.kind())
    }
}

fn opts() -> Options {
    Options::new(true, 1)
}

#[test]
fn example_session() {
    let mut store = Store::new();
    assert_eq!(store.connect("./db", opts()), Ok(0));
    assert_eq!(store.set_item(0, "a", "1"), Ok(()));
    assert_eq!(store.set_item(0, "b", "2"), Ok(()));
    assert_eq!(store.get_keys(0, None), Ok(vec!["a".to_string(), "b".to_string()]));
    assert_eq!(store.get_keys(0, Some("a")), Ok(vec!["a".to_string()]));
    assert_eq!(store.remove_item(0, "a"), Ok(()));
    assert_eq!(store.get_item(0, "a"), Ok(None));
    assert_eq!(store.close(0), Ok(()));
    assert_eq!(store.get_item(0, "b"), Err(ErrorKind::UnknownHandle));
}

#[test]
fn write_then_read_returns_value() {
    let mut store = Store::new();
    let h = store.connect("./w", opts()).unwrap();
    store.set_item(h, "k", "first").unwrap();
    store.set_item(h, "k", "second").unwrap();
    store.set_item(h, "other", "x").unwrap();
    assert_eq!(store.get_item(h, "k"), Ok(Some("second".to_string())));
    store.set_item(h, "e", "").unwrap();
    assert_eq!(store.get_item(h, "e"), Ok(Some(String::new())));
    store.set_item(h, "clé", "été").unwrap();
    assert_eq!(store.get_item(h, "clé"), Ok(Some("été".to_string())));
}

#[test]
fn missing_key_is_not_found() {
    let mut store = Store::new();
    let h = store.connect("./m", opts()).unwrap();
    assert_eq!(store.get_item(h, "never"), Ok(None));
    store.set_item(h, "gone", "v").unwrap();
    store.remove_item(h, "gone").unwrap();
    assert_eq!(store.get_item(h, "gone"), Ok(None));
}

#[test]
fn remove_absent_key_succeeds() {
    let mut store = Store::new();
    let h = store.connect("./r", opts()).unwrap();
    store.set_item(h, "a", "1").unwrap();
    assert_eq!(store.remove_item(h, "zzz"), Ok(()));
    assert_eq!(store.get_keys(h, None), Ok(vec!["a".to_string()]));
    assert_eq!(store.get_item(h, "zzz"), Ok(None));
}

#[test]
fn keys_ascending_and_filtered() {
    let mut store = Store::new();
    let h = store.connect("./k", opts()).unwrap();
    for k in ["pb", "a", "pa", "q", "p"] {
        store.set_item(h, k, "v").unwrap();
    }
    assert_eq!(
        store.get_keys(h, None),
        Ok(vec!["a", "p", "pa", "pb", "q"].into_iter().map(String::from).collect())
    );
    assert_eq!(
        store.get_keys(h, Some("p")),
        Ok(vec!["p", "pa", "pb"].into_iter().map(String::from).collect())
    );
    assert_eq!(store.get_keys(h, Some("x")), Ok(vec![]));
    assert_eq!(store.get_keys(h, Some("")), store.get_keys(h, None));
}

#[test]
fn unknown_handle_fails_everywhere() {
    let mut store = Store::new();
    assert_eq!(store.set_item(7, "a", "1"), Err(ErrorKind::UnknownHandle));
    assert_eq!(store.get_item(7, "a"), Err(ErrorKind::UnknownHandle));
    assert_eq!(store.get_keys(7, None), Err(ErrorKind::UnknownHandle));
    assert_eq!(store.remove_item(7, "a"), Err(ErrorKind::UnknownHandle));
    assert_eq!(store.close(7), Err(ErrorKind::UnknownHandle));
    let h = store.connect("./u", opts()).unwrap();
    store.close(h).unwrap();
    assert_eq!(store.close(h), Err(ErrorKind::UnknownHandle));
    assert_eq!(store.set_item(h, "a", "1"), Err(ErrorKind::UnknownHandle));
    assert_eq!(store.reg.len(), 0);
}

#[test]
fn handles_are_never_reused() {
    let mut store = Store::new();
    assert_eq!(store.connect("./a", opts()), Ok(0));
    assert_eq!(store.connect("./b", opts()), Ok(1));
    store.close(0).unwrap();
    store.close(1).unwrap();
    assert_eq!(store.connect("./a", opts()), Ok(2));
    assert_eq!(store.get_keys(2, None), Ok(vec![]));
}

#[test]
fn handles_keep_data_apart() {
    let mut store = Store::new();
    let a = store.connect("./a", opts()).unwrap();
    let b = store.connect("./b", opts()).unwrap();
    store.set_item(a, "k", "from a").unwrap();
    store.set_item(b, "k", "from b").unwrap();
    assert_eq!(store.get_item(a, "k"), Ok(Some("from a".to_string())));
    assert_eq!(store.get_item(b, "k"), Ok(Some("from b".to_string())));
}

#[test]
fn reconnect_after_close_is_empty() {
    let mut store = Store::new();
    let h = store.connect("./db", opts()).unwrap();
    store.set_item(h, "a", "1").unwrap();
    store.close(h).unwrap();
    let h2 = store.connect("./db", opts()).unwrap();
    assert_ne!(h, h2);
    assert_eq!(store.get_keys(h2, None), Ok(vec![]));
}

#[test]
fn connect_open_failure_registers_nothing() {
    let mut reg: Registry<u8> = Registry::new();
    let task = ConnectTask::new("./x".to_string(), Options::new(false, 3));
    let r = task.complete(&mut reg, Err("no such store".to_string()));
    let e = r.unwrap_err();
    assert_eq!(e.kind(), ErrorKind::EngineOpenFailure);
    assert_eq!(e.message(), "no such store");
    assert_eq!(reg.len(), 0);
    assert_eq!(task.complete(&mut reg, Ok(5)).unwrap(), 0);
    assert_eq!(*reg.get(0).unwrap(), 5);
}

#[test]
fn log_file_limit_is_the_option() {
    let task = ConnectTask::new("./x".to_string(), Options::new(true, 42));
    assert_eq!(task.log_file_limit(), 42);
    assert!(task.opts.create_if_missing);
}

#[test]
fn get_item_engine_error_and_bad_bytes() {
    let task = GetItemTask::new(0, "k".to_string());
    let e = task.complete(Err("corruption".to_string())).unwrap_err();
    assert_eq!(e.kind(), ErrorKind::EngineIoFailure);
    assert_eq!(e.message(), "corruption");
    let e = task.complete(Ok(Some(vec![0xff, 0x00]))).unwrap_err();
    assert_eq!(e.kind(), ErrorKind::DecodeFailure);
    assert_eq!(task.complete(Ok(Some(vec![0x68, 0x69]))).unwrap(), Some("hi".to_string()));
    assert_eq!(task.complete(Ok(None)).unwrap(), None);
}

#[test]
fn write_and_delete_errors_are_reported() {
    let set = SetItemTask::new(0, "k".to_string(), "v".to_string());
    assert_eq!(set.complete(Err("disk full".to_string())).unwrap_err().kind(), ErrorKind::EngineIoFailure);
    assert!(set.complete(Ok(())).is_ok());
    let rm = RemoveItemTask::new(0, "k".to_string());
    assert_eq!(rm.complete(Err("io".to_string())).unwrap_err().kind(), ErrorKind::EngineIoFailure);
    assert!(rm.complete(Ok(())).is_ok());
}

#[test]
fn get_keys_scan_failure_and_bad_key() {
    let task = GetKeysTask::new(0, Some("a".to_string()));
    let e = task.complete(Err("scan failed".to_string())).unwrap_err();
    assert_eq!(e.kind(), ErrorKind::EngineIoFailure);
    // an undecodable key that the prefix skips does no harm
    let keys = vec![b"ab".to_vec(), vec![0x62, 0xff], b"ac".to_vec()];
    assert_eq!(task.complete(Ok(keys)).unwrap(), vec!["ab".to_string(), "ac".to_string()]);
    let keys = vec![b"ab".to_vec(), vec![0x61, 0xff]];
    assert_eq!(task.complete(Ok(keys)).unwrap_err().kind(), ErrorKind::DecodeFailure);
}

#[test]
fn keys_decode_multibyte_text() {
    let task = GetKeysTask::new(0, None);
    let keys = vec!["é".as_bytes().to_vec(), "日本".as_bytes().to_vec()];
    assert_eq!(task.complete(Ok(keys)).unwrap(), vec!["é".to_string(), "日本".to_string()]);
}

#[test]
fn close_reports_destroy_failure_and_still_retires() {
    let mut reg: Registry<u8> = Registry::new();
    let h = reg.insert(1).unwrap();
    let task = CloseTask::new(h);
    let e = task.complete(&mut reg, Err("busy".to_string())).unwrap_err();
    assert_eq!(e.kind(), ErrorKind::EngineIoFailure);
    assert!(!reg.contains(h));
    assert_eq!(task.complete(&mut reg, Ok(())).unwrap_err().kind(), ErrorKind::UnknownHandle);
}

#[test]
fn registry_get_and_remove() {
    let mut reg: Registry<&str> = Registry::new();
    assert_eq!(reg.insert("x").unwrap(), 0);
    assert_eq!(reg.insert("y").unwrap(), 1);
    assert_eq!(*reg.get(1).unwrap(), "y");
    assert_eq!(reg.remove(0).unwrap(), "x");
    assert_eq!(reg.get(0).unwrap_err().kind(), ErrorKind::UnknownHandle);
    assert_eq!(reg.remove(0).unwrap_err().kind(), ErrorKind::UnknownHandle);
    assert_eq!(reg.len(), 1);
    assert_eq!(reg.insert("z").unwrap(), 2);
}

#[test]
fn decode_text_is_utf8() {
    assert_eq!(decode_text(&[0xc3, 0xa9]).unwrap(), "é");
    assert_eq!(decode_text(&[0xc3, 0xa9]).unwrap().chars().count(), 1);
    assert_eq!(decode_text(&[]).unwrap(), "");
    assert_eq!(decode_text(&[0xc3]).unwrap_err().kind(), ErrorKind::DecodeFailure);
    assert_eq!(decode_text(&[0xed, 0xa0, 0x80]).unwrap_err().kind(), ErrorKind::DecodeFailure);
}

#[test]
fn starts_with_bytes() {
    assert!(starts_with(b"abc", b"ab"));
    assert!(starts_with(b"abc", b""));
    assert!(starts_with(b"abc", b"abc"));
    assert!(!starts_with(b"ab", b"abc"));
    assert!(!starts_with(b"abc", b"b"));
}

#[test]
fn key_bytes_are_utf8() {
    let task = SetItemTask::new(0, "é".to_string(), "ü".to_string());
    assert_eq!(task.key_bytes(), &[0xc3, 0xa9]);
    assert_eq!(task.value_bytes(), &[0xc3, 0xbc]);
}
