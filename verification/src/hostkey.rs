//! The SSH host key: load it from the user's configuration directory if it is
//! there, otherwise generate one and save it for the next start.
//!
//! Paths are byte strings, as the environment holds them.
use russh::keys::ssh_key::{Algorithm, Error, PrivateKey};
use vstd::prelude::*;
use vstd::string::StringSliceAdditionalSpecFns;

verus! {

/// The separator of a path.
pub const SEPARATOR: u8 = 47;

/// Directory, under the user's configuration directory, that holds the key.
pub const CONFIG_SUBDIR: &'static str = "russhd-pty";

/// Name of the file that holds the key.
pub const KEY_FILE: &'static str = "host_ed25519_key";

/// Name of the algorithm of a new key.
pub const KEY_ALGORITHM: &'static str = "ssh-ed25519";

/// A private key of `ssh_key`, carried through.
#[verifier::external_type_specification]
#[verifier::external_body]
pub struct ExPrivateKey(PrivateKey);

/// An error of `ssh_key`, carried through.
#[verifier::external_type_specification]
#[verifier::external_body]
pub struct ExKeyError(Error);

/// Why there is no host key.
#[derive(Clone, Copy, Debug, PartialEq, Eq, Structural)]
pub enum HostKeyError {
    /// The environment names no configuration directory.
    NoConfigHome,
    /// The saved key could not be loaded.
    LoadFailed,
    /// No key could be generated.
    GenerateFailed,
    /// The directory of the key could not be created.
    DirFailed,
    /// The new key could not be saved.
    SaveFailed,
}

/// A path one step down from `base`: an absolute name replaces the base, and a
/// separator is added where one is missing.
pub open spec fn joined(base: Seq<u8>, name: Seq<u8>) -> Seq<u8> {
    if name.len() > 0 && name[0] == SEPARATOR {
        name
    } else if base.len() == 0 || base.last() == SEPARATOR {
        base + name
    } else {
        base.push(SEPARATOR) + name
    }
}

/// A path one step down from `base`.
pub fn join(base: &[u8], name: &[u8]) -> (r: Vec<u8>)
    ensures
        r@ == joined(base@, name@),
{
    let mut r: Vec<u8> = Vec::new();
    if name.len() == 0 || name[0] != SEPARATOR {
        r.extend_from_slice(base);
        assert(r@ =~= base@);
        if base.len() > 0 && base[base.len() - 1] != SEPARATOR {
            r.push(SEPARATOR);
        }
    }
    r.extend_from_slice(name);
    assert(r@ =~= joined(base@, name@));
    r
}

/// The user's configuration directory: what `XDG_CONFIG_HOME` says, unless it
/// is unset or empty, and else `.config` in the home directory.
pub open spec fn config_home(xdg: Option<Seq<u8>>, home: Option<Seq<u8>>) -> Option<Seq<u8>> {
    match (xdg, home) {
        (Some(dir), _) if dir.len() > 0 => Some(dir),
        (_, Some(dir)) => Some(joined(dir, ".config".spec_bytes())),
        _ => None,
    }
}

/// The bytes of an optional byte string.
pub open spec fn bytes_of(v: Option<Vec<u8>>) -> Option<Seq<u8>> {
    match v {
        Some(bytes) => Some(bytes@),
        None => None,
    }
}

/// Where the host key is kept.
#[derive(Clone, Debug, PartialEq, Eq)]
pub struct KeyPath {
    /// The directory.
    pub dir: Vec<u8>,
    /// The file in it.
    pub file: Vec<u8>,
}

impl KeyPath {
    /// The place under a configuration directory.
    pub open spec fn lies_under(&self, home: Seq<u8>) -> bool {
        &&& self.dir@ == joined(home, CONFIG_SUBDIR.spec_bytes())
        &&& self.file@ == joined(self.dir@, KEY_FILE.spec_bytes())
    }
}

/// Finds the place of the host key, given what the environment says of
/// `XDG_CONFIG_HOME` and `HOME`.
pub fn key_path(xdg: Option<Vec<u8>>, home: Option<Vec<u8>>) -> (r: Result<KeyPath, HostKeyError>)
    ensures
        match (r, config_home(bytes_of(xdg), bytes_of(home))) {
            (Ok(path), Some(dir)) => path.lies_under(dir),
            (Err(e), None) => e == HostKeyError::NoConfigHome,
            _ => false,
        },
{
    let config: Vec<u8> = match (xdg, home) {
        (Some(dir), other) => if dir.len() > 0 {
            dir
        } else {
            match other {
                Some(dir) => join(dir.as_slice(), ".config".as_bytes()),
                None => {
                    return Err(HostKeyError::NoConfigHome);
                },
            }
        },
        (None, Some(dir)) => join(dir.as_slice(), ".config".as_bytes()),
        (None, None) => {
            return Err(HostKeyError::NoConfigHome);
        },
    };
    let dir = join(config.as_slice(), CONFIG_SUBDIR.as_bytes());
    let file = join(dir.as_slice(), KEY_FILE.as_bytes());
    Ok(KeyPath { dir, file })
}

/// How far the search for a host key has come.
#[derive(Clone, Copy, Debug, PartialEq, Eq, Structural)]
pub enum Stage {
    /// Looking whether the file is there.
    Probing,
    /// Loading the file.
    Loading,
    /// Generating a key.
    Generating,
    /// Creating the directory.
    MakingDir,
    /// Saving the new key.
    Saving,
    /// The key is there, or there is none.
    Finished,
}

/// A host key.
#[derive(Debug)]
pub struct HostKey {
    /// The name of its algorithm.
    pub algorithm: String,
    /// The key.
    pub key: PrivateKey,
}

/// What the search is told.
#[derive(Debug)]
pub enum KeyEvent {
    /// Whether the file is there.
    Probed(bool),
    /// The key that was loaded from the file, or why none was.
    Loaded(Result<HostKey, Error>),
    /// The key that was generated, or why none was.
    Generated(Result<HostKey, Error>),
    /// Whether the directory is there.
    DirMade(bool),
    /// Whether the key could be saved.
    Saved(bool),
}

/// What the search asks for.
#[derive(Clone, Copy, Debug, PartialEq, Eq, Structural)]
pub enum KeyAction {
    /// Load the file.
    Load,
    /// Generate a key.
    Generate,
    /// Create the directory and its parents.
    MakeDir,
    /// Save the new key.
    Save,
    /// Use the key.
    Use,
    /// Give up.
    Fail(HostKeyError),
}

/// Whether an event can come at a stage.
pub open spec fn admits(stage: Stage, event: KeyEvent) -> bool {
    match event {
        KeyEvent::Probed(_) => stage == Stage::Probing,
        KeyEvent::Loaded(_) => stage == Stage::Loading,
        KeyEvent::Generated(_) => stage == Stage::Generating,
        KeyEvent::DirMade(_) => stage == Stage::MakingDir,
        KeyEvent::Saved(_) => stage == Stage::Saving,
    }
}

/// The stage and the action that follow an event.
pub open spec fn follow(event: KeyEvent) -> (Stage, KeyAction) {
    match event {
        KeyEvent::Probed(true) => (Stage::Loading, KeyAction::Load),
        KeyEvent::Probed(false) => (Stage::Generating, KeyAction::Generate),
        KeyEvent::Loaded(Ok(_)) => (Stage::Finished, KeyAction::Use),
        KeyEvent::Loaded(Err(_)) => (Stage::Finished, KeyAction::Fail(HostKeyError::LoadFailed)),
        KeyEvent::Generated(Ok(_)) => (Stage::MakingDir, KeyAction::MakeDir),
        KeyEvent::Generated(Err(_)) => {
            (Stage::Finished, KeyAction::Fail(HostKeyError::GenerateFailed))
        },
        KeyEvent::DirMade(true) => (Stage::Saving, KeyAction::Save),
        KeyEvent::DirMade(false) => (Stage::Finished, KeyAction::Fail(HostKeyError::DirFailed)),
        KeyEvent::Saved(true) => (Stage::Finished, KeyAction::Use),
        KeyEvent::Saved(false) => (Stage::Finished, KeyAction::Fail(HostKeyError::SaveFailed)),
    }
}

/// The key that a search holds after an event: one that was loaded or generated
/// takes the place of what was held.
pub open spec fn taken(held: Option<HostKey>, event: KeyEvent) -> Option<HostKey> {
    match event {
        KeyEvent::Loaded(Ok(key)) => Some(key),
        KeyEvent::Generated(Ok(key)) => Some(key),
        _ => held,
    }
}

/// Calls `ssh_key::PrivateKey::random` with the generator of `rand::rng` and the
/// algorithm that `Algorithm::new` finds under a name, and reads the name of the
/// key's algorithm. Which key comes depends on chance, but under `ssh-ed25519`
/// one always comes, of that algorithm: `PrivateKey::random` fails only for
/// algorithms that it does not support. Of other names nothing is claimed.
/// `rand::rng` panics where the system gives it no seed.
#[verifier::external_body]
fn random_key(algorithm: &str) -> (r: Result<HostKey, Error>)
    ensures
        algorithm@ == KEY_ALGORITHM@ ==> r is Ok && r->Ok_0.algorithm@ == algorithm@,
{
    let key = PrivateKey::random(&mut rand::rng(), Algorithm::new(algorithm)?)?;
    Ok(HostKey { algorithm: key.algorithm().as_str().to_string(), key })
}

/// The search for a host key.
#[derive(Debug)]
pub struct KeySearch {
    /// Where the key is kept.
    pub path: KeyPath,
    /// How far it has come.
    pub stage: Stage,
    /// The key that was loaded or generated.
    pub key: Option<HostKey>,
}

impl KeySearch {
    /// A key is there from its generation on, and none before.
    pub open spec fn wf(&self) -> bool {
        &&& self.stage is MakingDir || self.stage is Saving ==> self.key is Some
        &&& self.stage is Probing || self.stage is Loading || self.stage is Generating
            ==> self.key is None
    }

    /// Starts by looking whether the file is there.
    pub fn new(path: KeyPath) -> (r: KeySearch)
        ensures
            r.wf(),
            r.path == path,
            r.stage == Stage::Probing,
            r.key is None,
    {
        KeySearch { path, stage: Stage::Probing, key: None }
    }

    /// Takes in an event and says what to do about it. `Use` and `Save` are
    /// about the key that is then held.
    pub fn load_or_generate(&mut self, event: KeyEvent) -> (r: KeyAction)
        requires
            old(self).wf(),
            admits(old(self).stage, event),
        ensures
            (final(self).stage, r) == follow(event),
            final(self).key == taken(old(self).key, event),
            r is Use || r is Save ==> final(self).key is Some,
            final(self).path == old(self).path,
            final(self).wf(),
    {
        let (stage, action) = match event {
            KeyEvent::Probed(true) => (Stage::Loading, KeyAction::Load),
            KeyEvent::Probed(false) => (Stage::Generating, KeyAction::Generate),
            KeyEvent::Loaded(Ok(key)) => {
                self.key = Some(key);
                (Stage::Finished, KeyAction::Use)
            },
            KeyEvent::Loaded(Err(_)) => {
                (Stage::Finished, KeyAction::Fail(HostKeyError::LoadFailed))
            },
            KeyEvent::Generated(Ok(key)) => {
                self.key = Some(key);
                (Stage::MakingDir, KeyAction::MakeDir)
            },
            KeyEvent::Generated(Err(_)) => {
                (Stage::Finished, KeyAction::Fail(HostKeyError::GenerateFailed))
            },
            KeyEvent::DirMade(true) => (Stage::Saving, KeyAction::Save),
            KeyEvent::DirMade(false) => {
                (Stage::Finished, KeyAction::Fail(HostKeyError::DirFailed))
            },
            KeyEvent::Saved(true) => (Stage::Finished, KeyAction::Use),
            KeyEvent::Saved(false) => {
                (Stage::Finished, KeyAction::Fail(HostKeyError::SaveFailed))
            },
        };
        self.stage = stage;
        action
    }

    /// Generates an Ed25519 key and takes it in. Which key it is depends on
    /// chance.
    pub fn generate(&mut self) -> (r: KeyAction)
        requires
            old(self).wf(),
            old(self).stage == Stage::Generating,
        ensures
            r == KeyAction::MakeDir,
            final(self).stage == Stage::MakingDir,
            final(self).key is Some,
            final(self).key->0.algorithm@ == KEY_ALGORITHM@,
            final(self).path == old(self).path,
            final(self).wf(),
    {
        let drawn = random_key(KEY_ALGORITHM);
        self.load_or_generate(KeyEvent::Generated(drawn))
    }
}

/// The stage after a run of events.
pub open spec fn stage_after(events: Seq<KeyEvent>) -> Stage {
    if events.len() == 0 {
        Stage::Probing
    } else {
        follow(events.last()).0
    }
}

/// A run of events that a search can see from its start.
pub open spec fn possible(events: Seq<KeyEvent>) -> bool
    decreases events.len(),
{
    events.len() == 0 || (possible(events.drop_last()) && admits(
        stage_after(events.drop_last()),
        events.last(),
    ))
}

/// A key that is there is only ever loaded: none is generated or saved over it.
pub proof fn law_saved_key_is_kept(events: Seq<KeyEvent>, i: int)
    requires
        possible(events),
        events.len() > 0,
        events[0] == KeyEvent::Probed(true),
        0 <= i < events.len(),
    ensures
        events.len() <= 2,
        i == 0 ==> follow(events[i]).1 == KeyAction::Load,
        i == 1 ==> follow(events[i]).1 == KeyAction::Use || follow(events[i]).1 == KeyAction::Fail(
            HostKeyError::LoadFailed,
        ),
{
    lemma_runs(events);
}

/// A new key is used only once it is saved, after its directory was created.
pub proof fn law_new_key_is_saved_before_use(events: Seq<KeyEvent>)
    requires
        possible(events),
        events.len() > 0,
        events[0] == KeyEvent::Probed(false),
        follow(events.last()).1 == KeyAction::Use,
    ensures
        events.len() == 4,
        events[1] matches KeyEvent::Generated(Ok(_)),
        events[2] == KeyEvent::DirMade(true),
        events[3] == KeyEvent::Saved(true),
{
    lemma_runs(events);
}

/// The key that a search holds after a run of events from its start.
pub open spec fn held(events: Seq<KeyEvent>) -> Option<HostKey>
    decreases events.len(),
{
    if events.len() == 0 {
        None
    } else {
        taken(held(events.drop_last()), events.last())
    }
}

/// The key in the file after a run of events, where nobody else writes to it:
/// saving puts the held key there, and nothing else changes it.
pub open spec fn file_after(file: Option<HostKey>, events: Seq<KeyEvent>) -> Option<HostKey>
    decreases events.len(),
{
    if events.len() == 0 {
        file
    } else if events.last() == KeyEvent::Saved(true) {
        held(events.drop_last())
    } else {
        file_after(file, events.drop_last())
    }
}

/// A run of events tells what is in the file: that it is there exactly when it
/// holds a key, and that key when it is loaded.
pub open spec fn faithful(file: Option<HostKey>, events: Seq<KeyEvent>) -> bool
    decreases events.len(),
{
    events.len() == 0 || {
        let now = file_after(file, events.drop_last());
        &&& faithful(file, events.drop_last())
        &&& match events.last() {
            KeyEvent::Probed(there) => there == (now is Some),
            KeyEvent::Loaded(Ok(key)) => now == Some(key),
            KeyEvent::Loaded(Err(_)) => now is None,
            _ => true,
        }
    }
}

/// The host key survives restarts: after a start that came to use a key, the
/// next start comes to use the same key, and leaves the file as it is.
pub proof fn law_key_survives_restarts(
    file: Option<HostKey>,
    first: Seq<KeyEvent>,
    second: Seq<KeyEvent>,
)
    requires
        possible(first),
        faithful(file, first),
        first.len() > 0,
        follow(first.last()).1 == KeyAction::Use,
        possible(second),
        faithful(file_after(file, first), second),
        stage_after(second) == Stage::Finished,
    ensures
        held(first) is Some,
        follow(second.last()).1 == KeyAction::Use,
        held(second) == held(first),
        file_after(file_after(file, first), second) == file_after(file, first),
{
    lemma_runs(first);
    lemma_runs(second);
    reveal_with_fuel(held, 5);
    reveal_with_fuel(file_after, 5);
    reveal_with_fuel(faithful, 5);
}

proof fn lemma_runs(events: Seq<KeyEvent>)
    requires
        possible(events),
    ensures
        events.len() <= 4,
        events.len() > 0 ==> events[0] is Probed,
        events.len() > 1 && events[0] == KeyEvent::Probed(true) ==> events[1] is Loaded
            && events.len() == 2,
        events.len() > 1 && events[0] == KeyEvent::Probed(false) ==> events[1] is Generated,
        events.len() > 2 ==> events[0] == KeyEvent::Probed(false) && events[1]
            is Generated && events[1]->Generated_0 is Ok && events[2] is DirMade,
        events.len() > 3 ==> events[2] == KeyEvent::DirMade(true) && events[3] is Saved,
    decreases events.len(),
{
    if events.len() > 0 {
        lemma_runs(events.drop_last());
    }
}

/// The file of a key lies in its directory: its path is the directory, a
/// separator and the name of the file.
pub proof fn law_key_lies_in_its_directory(path: KeyPath, home: Seq<u8>)
    requires
        path.lies_under(home),
    ensures
        path.dir@.len() > 0,
        path.dir@.last() != SEPARATOR,
        path.file@ == path.dir@.push(SEPARATOR) + KEY_FILE.spec_bytes(),
{
    reveal_strlit("russhd-pty");
    reveal_strlit("host_ed25519_key");
    vstd::utf8::is_ascii_chars_encode_utf8("russhd-pty"@);
    vstd::utf8::is_ascii_chars_encode_utf8("host_ed25519_key"@);
    let sub = CONFIG_SUBDIR.spec_bytes();
    assert(sub.last() == 121);
    assert(path.dir@.last() == sub.last());
    assert(KEY_FILE.spec_bytes()[0] == 104);
}

/// A name one step down from a directory keeps both whole: the path begins with
/// the directory and ends with the name, and between them stands one separator
/// unless the directory brings its own or is empty. An absolute name stands
/// alone.
pub proof fn law_joining_keeps_both_parts(base: Seq<u8>, name: Seq<u8>)
    ensures
        name.len() > 0 && name[0] == SEPARATOR ==> joined(base, name) == name,
        !(name.len() > 0 && name[0] == SEPARATOR) ==> {
            let path = joined(base, name);
            let gap = path.len() - base.len() - name.len();
            &&& path.take(base.len() as int) == base
            &&& path.skip(path.len() - name.len()) == name
            &&& gap == 0 || gap == 1
            &&& gap == 1 ==> path[base.len() as int] == SEPARATOR
            &&& gap == 0 <==> base.len() == 0 || base.last() == SEPARATOR
        },
{
    let path = joined(base, name);
    if !(name.len() > 0 && name[0] == SEPARATOR) {
        assert(path.take(base.len() as int) =~= base);
        assert(path.skip(path.len() - name.len()) =~= name);
    }
}

/// Where the environment puts the configuration directory: what
/// `XDG_CONFIG_HOME` names stands as it is, whatever the home directory; an
/// empty one counts as none; then it is `.config` in the home directory, and
/// without a home directory there is none.
pub proof fn law_environment_names_the_directory(
    xdg: Seq<u8>,
    home: Option<Seq<u8>>,
    dir: Seq<u8>,
)
    ensures
        xdg.len() > 0 ==> config_home(Some(xdg), home) == Some(xdg),
        xdg.len() == 0 ==> config_home(Some(xdg), home) == config_home(None, home),
        config_home(None, None) is None,
        config_home(None, Some(dir)) == Some(joined(dir, seq![46u8, 99, 111, 110, 102, 105, 103])),
        dir.len() > 0 && dir.last() != SEPARATOR ==> config_home(None, Some(dir)) == Some(
            dir.push(SEPARATOR) + seq![46u8, 99, 111, 110, 102, 105, 103],
        ),
{
    reveal_strlit(".config");
    vstd::utf8::is_ascii_chars_encode_utf8(".config"@);
    assert(".config".spec_bytes() =~= seq![46u8, 99, 111, 110, 102, 105, 103]);
}

/// The key's directory is `russhd-pty` in the configuration directory.
pub proof fn law_directory_lies_in_the_configuration_directory(path: KeyPath, home: Seq<u8>)
    requires
        path.lies_under(home),
    ensures
        home.len() > 0 && home.last() != SEPARATOR ==> path.dir@ == home.push(SEPARATOR)
            + CONFIG_SUBDIR.spec_bytes(),
        home.len() == 0 || home.last() == SEPARATOR ==> path.dir@ == home
            + CONFIG_SUBDIR.spec_bytes(),
        CONFIG_SUBDIR@ == "russhd-pty"@,
        KEY_FILE@ == "host_ed25519_key"@,
{
    reveal_strlit("russhd-pty");
    vstd::utf8::is_ascii_chars_encode_utf8("russhd-pty"@);
    assert(CONFIG_SUBDIR.spec_bytes()[0] == 114);
}

/// The bytes of an optional byte string are its own.
pub proof fn law_bytes_are_kept(v: Option<Vec<u8>>)
    ensures
        bytes_of(v) is None <==> v is None,
        v matches Some(bytes) ==> bytes_of(v) == Some(bytes@),
{
}

/// A key is used exactly when it was loaded or saved, whatever key it is, and
/// each failure is told as itself.
pub proof fn law_outcomes_are_told_apart(event: KeyEvent)
    ensures
        follow(event).1 is Use <==> (event matches KeyEvent::Loaded(Ok(_))) || event
            == KeyEvent::Saved(true),
        follow(event).1 is Load <==> event == KeyEvent::Probed(true),
        follow(event).1 is Generate <==> event == KeyEvent::Probed(false),
        follow(event).1 is MakeDir <==> (event matches KeyEvent::Generated(Ok(_))),
        follow(event).1 is Save <==> event == KeyEvent::DirMade(true),
        follow(event).1 == KeyAction::Fail(HostKeyError::LoadFailed) <==> (event matches
            KeyEvent::Loaded(Err(_))),
        follow(event).1 == KeyAction::Fail(HostKeyError::GenerateFailed) <==> (event matches
            KeyEvent::Generated(Err(_))),
        follow(event).1 == KeyAction::Fail(HostKeyError::DirFailed) <==> event == KeyEvent::DirMade(
            false,
        ),
        follow(event).1 == KeyAction::Fail(HostKeyError::SaveFailed) <==> event == KeyEvent::Saved(
            false,
        ),
        follow(event).0 is Finished <==> follow(event).1 is Use || follow(event).1 is Fail,
{
}

/// A loaded or generated key is the one that is held, and nothing else changes
/// what is held.
pub proof fn law_the_key_that_came_is_held(
    before: Option<HostKey>,
    event: KeyEvent,
    key: HostKey,
)
    ensures
        event == KeyEvent::Loaded(Ok(key)) || event == KeyEvent::Generated(Ok(key)) ==> taken(
            before,
            event,
        ) == Some(key),
        event is Probed || event is DirMade || event is Saved ==> taken(before, event) == before,
        (event matches KeyEvent::Loaded(Err(_))) || (event matches KeyEvent::Generated(Err(_)))
            ==> taken(before, event) == before,
{
}

/// An event can come exactly when the search asked for what it tells.
pub proof fn law_events_answer_actions(events: Seq<KeyEvent>, event: KeyEvent)
    requires
        possible(events),
        events.len() > 0,
    ensures
        possible(events.push(event)) <==> match follow(events.last()).1 {
            KeyAction::Load => event is Loaded,
            KeyAction::Generate => event is Generated,
            KeyAction::MakeDir => event is DirMade,
            KeyAction::Save => event is Saved,
            KeyAction::Use | KeyAction::Fail(_) => false,
        },
        possible(seq![event]) <==> event is Probed,
{
    assert(events.push(event).drop_last() =~= events);
    assert(seq![event].drop_last() =~= Seq::<KeyEvent>::empty());
    assert(possible(Seq::<KeyEvent>::empty()));
}

} // verus!
