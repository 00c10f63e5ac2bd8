use russh::keys::ssh_key::{Algorithm, Error};
use russhd_pty::hostkey::{
    join, key_path, HostKey, HostKeyError, KeyAction, KeyEvent, KeyPath, KeySearch, Stage,
    KEY_ALGORITHM,
};

fn copy(host: &HostKey) -> HostKey {
    HostKey { algorithm: host.algorithm.clone(), key: host.key.clone() }
}

fn new_key() -> HostKey {
    let mut search = KeySearch::new(path());
    assert_eq!(search.load_or_generate(KeyEvent::Probed(false)), KeyAction::Generate);
    assert_eq!(search.generate(), KeyAction::MakeDir);
    search.key.unwrap()
}

/// A start of the daemon on what is in the file: the key that it uses.
fn start(file: &mut Option<HostKey>) -> HostKey {
    let mut search = KeySearch::new(path());
    let mut action = search.load_or_generate(KeyEvent::Probed(file.is_some()));
    loop {
        action = match action {
            KeyAction::Load => {
                let loaded = file.as_ref().map(copy).ok_or(Error::Crypto);
                search.load_or_generate(KeyEvent::Loaded(loaded))
            }
            KeyAction::Generate => search.generate(),
            KeyAction::MakeDir => search.load_or_generate(KeyEvent::DirMade(true)),
            KeyAction::Save => {
                *file = search.key.as_ref().map(copy);
                search.load_or_generate(KeyEvent::Saved(true))
            }
            KeyAction::Use => return search.key.unwrap(),
            KeyAction::Fail(e) => panic!("{:?}", e),
        };
    }
}

fn path() -> KeyPath {
    key_path(Some(b"/cfg".to_vec()), None).unwrap()
}

#[test]
fn paths_are_joined() {
    assert_eq!(join(b"/a", b"b"), b"/a/b");
    assert_eq!(join(b"/a/", b"b"), b"/a/b");
    assert_eq!(join(b"", b"b"), b"b");
    assert_eq!(join(b"a", b""), b"a/");
    assert_eq!(join(b"/a", b"/b"), b"/b");
}

#[test]
fn configuration_home_comes_from_the_environment() {
    let at = |dir: &[u8]| KeyPath {
        dir: [dir, b"/russhd-pty"].concat(),
        file: [dir, b"/russhd-pty/host_ed25519_key"].concat(),
    };
    let xdg = || Some(b"/xdg".to_vec());
    let home = || Some(b"/home/u".to_vec());
    assert_eq!(key_path(xdg(), home()), Ok(at(b"/xdg")));
    assert_eq!(key_path(xdg(), None), Ok(at(b"/xdg")));
    assert_eq!(key_path(None, home()), Ok(at(b"/home/u/.config")));
    assert_eq!(key_path(Some(vec![]), home()), Ok(at(b"/home/u/.config")));
    assert_eq!(key_path(None, None), Err(HostKeyError::NoConfigHome));
    assert_eq!(key_path(Some(vec![]), None), Err(HostKeyError::NoConfigHome));
    // An empty home directory is one.
    assert_eq!(key_path(None, Some(vec![])), Ok(at(b".config")));
    // The environment need not be UTF-8.
    assert_eq!(key_path(Some(vec![b'/', 0xff]), None), Ok(at(&[b'/', 0xff])));
}

#[test]
fn key_file_lies_in_its_directory() {
    let found = path();
    assert_eq!(found.file, [found.dir.as_slice(), b"/host_ed25519_key"].concat());
}

#[test]
fn saved_key_is_kept() {
    let saved = new_key();
    let mut search = KeySearch::new(path());
    assert_eq!(search.load_or_generate(KeyEvent::Probed(true)), KeyAction::Load);
    let loaded = KeyEvent::Loaded(Ok(copy(&saved)));
    assert_eq!(search.load_or_generate(loaded), KeyAction::Use);
    assert_eq!(search.stage, Stage::Finished);
    assert!(search.key.unwrap().key == saved.key);
    assert_eq!(search.path, path());
}

#[test]
fn broken_key_is_not_replaced() {
    let mut search = KeySearch::new(path());
    assert_eq!(search.load_or_generate(KeyEvent::Probed(true)), KeyAction::Load);
    assert_eq!(
        search.load_or_generate(KeyEvent::Loaded(Err(Error::Crypto))),
        KeyAction::Fail(HostKeyError::LoadFailed)
    );
    assert_eq!(search.stage, Stage::Finished);
    assert!(search.key.is_none());
}

#[test]
fn key_survives_restarts() {
    let mut file = None;
    let first = start(&mut file);
    for _ in 0..3 {
        assert!(start(&mut file).key == first.key);
        assert!(file.as_ref().unwrap().key == first.key);
    }
    file = None;
    assert!(start(&mut file).key != first.key);
}

#[test]
fn new_key_is_saved_before_use() {
    let mut search = KeySearch::new(path());
    assert_eq!(search.load_or_generate(KeyEvent::Probed(false)), KeyAction::Generate);
    assert_eq!(search.generate(), KeyAction::MakeDir);
    let made = copy(search.key.as_ref().unwrap());
    assert_eq!(search.load_or_generate(KeyEvent::DirMade(true)), KeyAction::Save);
    assert_eq!(search.load_or_generate(KeyEvent::Saved(true)), KeyAction::Use);
    assert_eq!(search.stage, Stage::Finished);
    assert!(search.key.as_ref().unwrap().key == made.key);
}

#[test]
fn generated_keys_are_ed25519_and_differ() {
    let (a, b) = (new_key(), new_key());
    assert_eq!(KEY_ALGORITHM, "ssh-ed25519");
    for host in [&a, &b] {
        assert_eq!(host.key.algorithm(), Algorithm::Ed25519);
        assert_eq!(host.algorithm, KEY_ALGORITHM);
    }
    assert_ne!(a.key.public_key(), b.key.public_key());
}

#[test]
fn failures_of_a_new_key_are_told_apart() {
    let mut search = KeySearch::new(path());
    assert_eq!(search.load_or_generate(KeyEvent::Probed(false)), KeyAction::Generate);
    assert_eq!(
        search.load_or_generate(KeyEvent::Generated(Err(Error::Crypto))),
        KeyAction::Fail(HostKeyError::GenerateFailed)
    );
    assert_eq!(search.stage, Stage::Finished);
    assert!(search.key.is_none());

    let mut search = KeySearch::new(path());
    assert_eq!(search.load_or_generate(KeyEvent::Probed(false)), KeyAction::Generate);
    assert_eq!(search.generate(), KeyAction::MakeDir);
    assert_eq!(
        search.load_or_generate(KeyEvent::DirMade(false)),
        KeyAction::Fail(HostKeyError::DirFailed)
    );

    let mut search = KeySearch::new(path());
    assert_eq!(search.load_or_generate(KeyEvent::Probed(false)), KeyAction::Generate);
    assert_eq!(search.generate(), KeyAction::MakeDir);
    assert_eq!(search.load_or_generate(KeyEvent::DirMade(true)), KeyAction::Save);
    assert_eq!(
        search.load_or_generate(KeyEvent::Saved(false)),
        KeyAction::Fail(HostKeyError::SaveFailed)
    );
}
