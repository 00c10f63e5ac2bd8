//! The command line and the runtime [`Config`] derived from it.
use vstd::prelude::*;
use crate::net::{IpAddr, SocketAddr};

verus! {

/// Seconds that a child is given to exit after `SIGHUP` before it is killed.
pub const GRACE: u64 = 5;

/// TCP port that the daemon listens on unless told otherwise.
pub const DEFAULT_PORT: u16 = 2222;

/// Seconds that shutdown waits for the sessions beyond their grace period.
pub const TEARDOWN_MARGIN: u64 = 2;

/// Raw command-line arguments.
#[derive(Debug)]
pub struct Cli {
    /// TCP port to listen on.
    pub port: u16,
    /// Address to bind, taken verbatim.
    pub listen: IpAddr,
    /// User names that may connect; empty means every name.
    pub allow_ssh_usernames: Vec<String>,
    /// The command to run for every session, in shell syntax.
    pub command: String,
}

/// Why a command line gives no [`Config`].
#[derive(Clone, Copy, Debug, PartialEq, Eq)]
pub enum ConfigError {
    /// The command string is not well-formed shell syntax.
    UnparsableCommand,
    /// The command string holds no word.
    EmptyCommand,
}

impl ConfigError {
    /// The text of the error.
    pub open spec fn text(self) -> Seq<char> {
        match self {
            ConfigError::UnparsableCommand => {
                "failed to parse command string (unbalanced quotes?)"@
            },
            ConfigError::EmptyCommand => {
                "command string parsed to an empty argv; nothing to run"@
            },
        }
    }

    /// The text of the error.
    pub fn message(&self) -> (r: String)
        ensures
            r@ == self.text(),
    {
        match self {
            ConfigError::UnparsableCommand => {
                "failed to parse command string (unbalanced quotes?)".to_string()
            },
            ConfigError::EmptyCommand => {
                "command string parsed to an empty argv; nothing to run".to_string()
            },
        }
    }
}

/// Validated runtime configuration.
#[derive(Clone, Debug)]
pub struct Config {
    /// Address to bind the listening socket to.
    pub addr: SocketAddr,
    /// The argv to execute for each session; `argv[0]` is the program.
    pub argv: Vec<String>,
    /// Seconds between `SIGHUP` and `SIGKILL` when a session is torn down.
    pub grace: u64,
    /// User names that may authenticate, each once; `None` means every name.
    pub allowed_usernames: Option<Vec<String>>,
}

/// What to tell the operator about who can run the command.
#[derive(Clone, Copy, Debug, PartialEq, Eq)]
pub enum AccessWarning {
    /// Only listed names may connect, but no credential is checked.
    NoCredentialCheck,
    /// Anyone may connect.
    AuthenticationDisabled,
}

/// What `shlex::split` makes of a command string: its words, or nothing where
/// the string is not well-formed.
pub uninterp spec fn shell_words(command: Seq<char>) -> Option<Seq<Seq<char>>>;

/// The words of an optional list of strings.
pub open spec fn words(v: Option<Vec<String>>) -> Option<Seq<Seq<char>>> {
    match v {
        Some(list) => Some(crate::text::strings(list@)),
        None => None,
    }
}

/// Calls `shlex::split`, which splits a string as a POSIX shell would. The
/// result is named after the string; the syntax itself is left unsaid.
#[verifier::external_body]
fn split(command: &str) -> (r: Option<Vec<String>>)
    ensures
        words(r) == shell_words(command@),
{
    shlex::split(command)
}

/// The policy that a list of names on the command line stands for.
pub open spec fn policy(names: Seq<Seq<char>>) -> Option<Set<Seq<char>>> {
    if names.len() == 0 {
        None
    } else {
        Some(names.to_set())
    }
}

fn contains_name(names: &Vec<String>, user: &String) -> (r: bool)
    ensures
        r == crate::text::strings(names@).contains(user@),
{
    let ghost listed = crate::text::strings(names@);
    let mut i: usize = 0;
    while i < names.len()
        invariant
            i <= names.len(),
            listed == crate::text::strings(names@),
            forall|j: int| 0 <= j < i ==> listed[j] != user@,
        decreases names.len() - i,
    {
        if names[i] == *user {
            assert(listed[i as int] == user@);
            return true;
        }
        i += 1;
    }
    false
}

/// The names of a list, each once, in the order of their first mention.
fn distinct(names: &Vec<String>) -> (r: Vec<String>)
    ensures
        crate::text::strings(r@).to_set() == crate::text::strings(names@).to_set(),
        crate::text::strings(r@).no_duplicates(),
{
    let mut r: Vec<String> = Vec::new();
    let ghost all = crate::text::strings(names@);
    let mut i: usize = 0;
    assert(crate::text::strings(r@).to_set() =~= all.take(0).to_set());
    while i < names.len()
        invariant
            i <= names.len(),
            all == crate::text::strings(names@),
            crate::text::strings(r@).to_set() == all.take(i as int).to_set(),
            crate::text::strings(r@).no_duplicates(),
        decreases names.len() - i,
    {
        let ghost before = crate::text::strings(r@);
        assert(all.take(i + 1) =~= all.take(i as int).push(all[i as int]));
        proof {
            lemma_push_to_set(all.take(i as int), all[i as int]);
        }
        if !contains_name(&r, &names[i]) {
            r.push(names[i].clone());
            assert(crate::text::strings(r@) =~= before.push(all[i as int]));
            proof {
                lemma_push_to_set(before, all[i as int]);
            }
        } else {
            assert(before.to_set().insert(all[i as int]) =~= before.to_set());
        }
        i += 1;
    }
    assert(all.take(all.len() as int) =~= all);
    r
}

proof fn lemma_push_to_set(s: Seq<Seq<char>>, a: Seq<char>)
    ensures
        s.push(a).to_set() == s.to_set().insert(a),
{
    assert forall|x: Seq<char>| s.to_set().insert(a).contains(x) implies s.push(
        a,
    ).to_set().contains(x) by {
        if x == a {
            assert(s.push(a)[s.len() as int] == a);
        } else {
            let i = choose|i: int| 0 <= i < s.len() && s[i] == x;
            assert(s.push(a)[i] == x);
        }
    }
    assert(s.push(a).to_set() =~= s.to_set().insert(a));
}

impl Config {
    /// There is a program to run, and no name is listed twice.
    pub open spec fn wf(&self) -> bool {
        &&& self.argv@.len() > 0
        &&& self.allowed_usernames matches Some(names) ==> crate::text::strings(
            names@,
        ).no_duplicates()
    }

    /// The words of the configured command.
    pub open spec fn command(&self) -> Seq<Seq<char>> {
        crate::text::strings(self.argv@)
    }

    /// The names that may authenticate; `None` means every name.
    pub open spec fn allow_set(&self) -> Option<Set<Seq<char>>> {
        match self.allowed_usernames {
            Some(names) => Some(crate::text::strings(names@).to_set()),
            None => None,
        }
    }

    /// Whether `user` may authenticate.
    pub open spec fn allows(&self, user: Seq<char>) -> bool {
        self.allow_set() matches Some(names) ==> names.contains(user)
    }

    /// Whether `user` is permitted to authenticate under the configured policy.
    pub fn username_allowed(&self, user: &str) -> (r: bool)
        ensures
            r == self.allows(user@),
    {
        match &self.allowed_usernames {
            Some(names) => contains_name(names, &user.to_string()),
            None => true,
        }
    }

    /// The configuration that `cli` gives once its command string was split
    /// into `argv`.
    pub open spec fn follows(&self, cli: Cli, argv: Seq<Seq<char>>) -> bool {
        &&& self.wf()
        &&& self.addr.ip == cli.listen
        &&& self.addr.port == cli.port
        &&& self.command() == argv
        &&& self.grace == GRACE
        &&& self.allow_set() == policy(crate::text::strings(cli.allow_ssh_usernames@))
    }

    /// Builds a [`Config`] from parsed arguments, validating the command string.
    pub fn from_cli(cli: Cli) -> (r: Result<Config, ConfigError>)
        ensures
            match (r, shell_words(cli.command@)) {
                (Ok(config), Some(argv)) => argv.len() > 0 && config.follows(cli, argv),
                (Err(e), Some(argv)) => argv.len() == 0 && e == ConfigError::EmptyCommand,
                (Err(e), None) => e == ConfigError::UnparsableCommand,
                (Ok(_), None) => false,
            },
    {
        let argv = split(cli.command.as_str());
        Config::from_words(cli, argv)
    }

    /// Builds a [`Config`] from arguments whose command string was split into
    /// `argv`, where `None` means that it could not be.
    pub fn from_words(cli: Cli, argv: Option<Vec<String>>) -> (r: Result<Config, ConfigError>)
        ensures
            match (r, words(argv)) {
                (Ok(config), Some(list)) => list.len() > 0 && config.follows(cli, list),
                (Err(e), Some(list)) => list.len() == 0 && e == ConfigError::EmptyCommand,
                (Err(e), None) => e == ConfigError::UnparsableCommand,
                (Ok(_), None) => false,
            },
    {
        let argv = match argv {
            Some(list) => list,
            None => {
                return Err(ConfigError::UnparsableCommand);
            },
        };
        if argv.len() == 0 {
            return Err(ConfigError::EmptyCommand);
        }
        let allowed_usernames = if cli.allow_ssh_usernames.len() == 0 {
            None
        } else {
            Some(distinct(&cli.allow_ssh_usernames))
        };
        Ok(
            Config {
                addr: SocketAddr { ip: cli.listen, port: cli.port },
                argv,
                grace: GRACE,
                allowed_usernames,
            },
        )
    }

    /// Which reminder about access to print at startup.
    pub fn access_warning(&self) -> (r: AccessWarning)
        ensures
            r == if self.allow_set() is Some {
                AccessWarning::NoCredentialCheck
            } else {
                AccessWarning::AuthenticationDisabled
            },
    {
        match &self.allowed_usernames {
            Some(_) => AccessWarning::NoCredentialCheck,
            None => AccessWarning::AuthenticationDisabled,
        }
    }

    /// Whether the command is exposed to the network.
    pub fn exposed(&self) -> (r: bool)
        ensures
            r == !crate::net::loopback(self.addr.ip),
    {
        !self.addr.ip.is_loopback()
    }

    /// Seconds that shutdown waits for the sessions to terminate.
    pub fn teardown_budget(&self) -> (r: u64)
        requires
            self.grace + TEARDOWN_MARGIN <= u64::MAX,
        ensures
            r == self.grace + TEARDOWN_MARGIN,
    {
        self.grace + TEARDOWN_MARGIN
    }
}

/// Without a list of names every user is allowed.
pub proof fn law_no_list_allows_everyone(config: Config, cli: Cli, argv: Seq<Seq<char>>)
    requires
        config.follows(cli, argv),
        cli.allow_ssh_usernames@.len() == 0,
    ensures
        forall|user: Seq<char>| config.allows(user),
{
}

/// With a list of names exactly the listed users are allowed.
pub proof fn law_list_allows_exactly_the_listed(config: Config, cli: Cli, argv: Seq<Seq<char>>)
    requires
        config.follows(cli, argv),
        cli.allow_ssh_usernames@.len() > 0,
    ensures
        forall|user: Seq<char>|
            config.allows(user) <==> crate::text::strings(cli.allow_ssh_usernames@).contains(user),
{
    let names = crate::text::strings(cli.allow_ssh_usernames@);
    assert forall|user: Seq<char>| config.allows(user) <==> names.contains(user) by {
        assert(names.to_set().contains(user) <==> names.contains(user));
    }
}

/// Who is allowed does not depend on the order of the list, nor on repetitions.
pub proof fn law_policy_ignores_order(a: Seq<Seq<char>>, b: Seq<Seq<char>>)
    requires
        forall|user: Seq<char>| a.contains(user) <==> b.contains(user),
    ensures
        policy(a) == policy(b),
{
    if a.len() > 0 {
        assert(a.contains(a[0]));
    }
    if b.len() > 0 {
        assert(b.contains(b[0]));
    }
    assert(a.to_set() =~= b.to_set());
}

/// Shutdown waits longer than a session needs to give up on its child.
pub proof fn law_teardown_outlasts_grace(config: Config, cli: Cli, argv: Seq<Seq<char>>)
    requires
        config.follows(cli, argv),
    ensures
        config.grace < config.grace + TEARDOWN_MARGIN <= u64::MAX,
{
}

/// A configuration takes over all of the command line: the address and the port
/// as they are, the words of the command one for one, and the fixed grace
/// period.
pub proof fn law_config_takes_over_the_command_line(config: Config, cli: Cli, argv: Seq<Seq<char>>)
    requires
        config.follows(cli, argv),
    ensures
        config.addr.ip == cli.listen,
        config.addr.port == cli.port,
        config.argv@.len() == argv.len(),
        forall|i: int| 0 <= i < argv.len() ==> #[trigger] config.argv@[i]@ == argv[i],
        argv.len() > 0,
        config.grace == 5,
        config.allowed_usernames is None <==> cli.allow_ssh_usernames@.len() == 0,
{
    let words = crate::text::strings(config.argv@);
    assert forall|i: int| 0 <= i < argv.len() implies #[trigger] config.argv@[i]@ == argv[i] by {
        assert(words[i] == config.argv@[i]@);
    }
}

/// A configuration's list decides on its own: without one everyone is allowed,
/// with one exactly the names on it, letter for letter.
pub proof fn law_the_list_decides(config: Config, user: Seq<char>)
    ensures
        config.allows(user) <==> (config.allowed_usernames matches Some(names) ==> exists|i: int|
            0 <= i < names@.len() && #[trigger] names@[i]@ == user),
{
    if config.allowed_usernames is Some {
        let names = config.allowed_usernames->0@;
        let listed = crate::text::strings(names);
        if listed.to_set().contains(user) {
            let i = choose|i: int| 0 <= i < listed.len() && listed[i] == user;
            assert(names[i]@ == user);
        }
        if exists|i: int| 0 <= i < names.len() && #[trigger] names[i]@ == user {
            let i = choose|i: int| 0 <= i < names.len() && #[trigger] names[i]@ == user;
            assert(listed[i] == user);
            assert(listed.contains(user));
        }
    }
}

/// The configured command is the configured list of words, and a list of words
/// stands for its own words.
pub proof fn law_words_are_kept(config: Config, v: Option<Vec<String>>)
    ensures
        config.command().len() == config.argv@.len(),
        forall|i: int|
            0 <= i < config.argv@.len() ==> #[trigger] config.argv@[i]@ == config.command()[i],
        words(v) is None <==> v is None,
        v matches Some(list) ==> words(v)->0.len() == list@.len() && forall|i: int|
            0 <= i < list@.len() ==> #[trigger] list@[i]@ == words(v)->0[i],
{
}

} // verus!
