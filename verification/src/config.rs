//! What a user configures: the targets to open in the morning, and how the
//! evening shutdown behaves; where the configuration file lives; and the
//! defaults that hold where the file says nothing.

use vstd::prelude::*;
use vstd::string::*;

use crate::text::{joined, push_char};

verus! {

/// The configuration file that `config init` writes.
pub const DEFAULT_CONFIG: &'static str = "[off]
confirm_seconds = 10
shutdown = true
quit_timeout_secs = 15

[[apps]]
name = \"Cursor\"
delay_ms = 500

[[apps]]
name = \"Google Chrome\"
delay_ms = 500

[[urls]]
url = \"https://calendar.google.com\"
delay_ms = 300

[[commands]]
name = \"start dev service\"
cmd = \"cd ~/project && npm run dev\"
delay_ms = 0
";

/// Settings of the evening run.
#[derive(Debug, Clone, Copy, PartialEq, Eq, Structural)]
pub struct OffConfig {
    /// Seconds of countdown before the machine shuts down.
    pub confirm_seconds: u64,
    /// Whether the evening run ends with a shutdown.
    pub shutdown: bool,
    /// Seconds to wait after asking an app to quit, where the app sets none.
    pub quit_timeout_secs: u64,
}

/// An application to open in the morning and quit in the evening.
#[derive(Debug, Clone, PartialEq, Eq)]
pub struct AppTarget {
    pub name: String,
    pub delay_ms: u64,
    pub timeout_secs: Option<u64>,
}

/// A URL to open in the morning.
#[derive(Debug, Clone, PartialEq, Eq)]
pub struct UrlTarget {
    pub url: String,
    pub delay_ms: u64,
}

/// A shell command to run in the morning.
#[derive(Debug, Clone, PartialEq, Eq)]
pub struct CommandTarget {
    pub name: Option<String>,
    pub cmd: String,
    pub delay_ms: u64,
}

/// The whole configuration.
#[derive(Debug, Clone, PartialEq, Eq)]
pub struct Config {
    pub off: OffConfig,
    pub apps: Vec<AppTarget>,
    pub urls: Vec<UrlTarget>,
    pub commands: Vec<CommandTarget>,
}

/// An [`AppTarget`] as a mathematical value.
#[verifier::ext_equal]
pub struct AppTargetView {
    pub name: Seq<char>,
    pub delay_ms: u64,
    pub timeout_secs: Option<u64>,
}

/// A [`UrlTarget`] as a mathematical value.
#[verifier::ext_equal]
pub struct UrlTargetView {
    pub url: Seq<char>,
    pub delay_ms: u64,
}

/// A [`CommandTarget`] as a mathematical value.
#[verifier::ext_equal]
pub struct CommandTargetView {
    pub name: Option<Seq<char>>,
    pub cmd: Seq<char>,
    pub delay_ms: u64,
}

/// A [`Config`] as a mathematical value.
#[verifier::ext_equal]
pub struct ConfigView {
    pub off: OffConfig,
    pub apps: Seq<AppTargetView>,
    pub urls: Seq<UrlTargetView>,
    pub commands: Seq<CommandTargetView>,
}

/// The view of an optional string.
pub open spec fn opt_view(s: Option<String>) -> Option<Seq<char>> {
    match s {
        Some(t) => Some(t@),
        None => None,
    }
}

impl View for AppTarget {
    type V = AppTargetView;

    open spec fn view(&self) -> AppTargetView {
        AppTargetView { name: self.name@, delay_ms: self.delay_ms, timeout_secs: self.timeout_secs }
    }
}

impl View for UrlTarget {
    type V = UrlTargetView;

    open spec fn view(&self) -> UrlTargetView {
        UrlTargetView { url: self.url@, delay_ms: self.delay_ms }
    }
}

impl View for CommandTarget {
    type V = CommandTargetView;

    open spec fn view(&self) -> CommandTargetView {
        CommandTargetView { name: opt_view(self.name), cmd: self.cmd@, delay_ms: self.delay_ms }
    }
}

impl View for Config {
    type V = ConfigView;

    open spec fn view(&self) -> ConfigView {
        ConfigView {
            off: self.off,
            apps: self.apps@.map_values(|a: AppTarget| a@),
            urls: self.urls@.map_values(|u: UrlTarget| u@),
            commands: self.commands@.map_values(|c: CommandTarget| c@),
        }
    }
}

/// The countdown before shutdown where the file sets none.
pub fn default_confirm_seconds() -> (s: u64)
    ensures
        s == 10,
{
    10
}

/// Whether the evening run shuts down where the file does not say.
pub fn default_shutdown() -> (b: bool)
    ensures
        b,
{
    true
}

/// The wait after asking an app to quit where neither the app nor the file sets one.
pub fn default_quit_timeout_secs() -> (s: u64)
    ensures
        s == 15,
{
    15
}

/// The evening settings that hold where the file gives none.
pub open spec fn default_off_config() -> OffConfig {
    OffConfig { confirm_seconds: 10, shutdown: true, quit_timeout_secs: 15 }
}

/// The configuration that holds where no file has been written: the same
/// targets and settings as [`DEFAULT_CONFIG`].
pub open spec fn default_config() -> ConfigView {
    ConfigView {
        off: default_off_config(),
        apps: seq![
            AppTargetView { name: "Cursor"@, delay_ms: 500, timeout_secs: None },
            AppTargetView { name: "Google Chrome"@, delay_ms: 500, timeout_secs: None },
        ],
        urls: seq![UrlTargetView { url: "https://calendar.google.com"@, delay_ms: 300 }],
        commands: seq![
            CommandTargetView {
                name: Some("start dev service"@),
                cmd: "cd ~/project && npm run dev"@,
                delay_ms: 0,
            },
        ],
    }
}

impl Default for OffConfig {
    fn default() -> (c: Self)
        ensures
            c == default_off_config(),
    {
        OffConfig {
            confirm_seconds: default_confirm_seconds(),
            shutdown: default_shutdown(),
            quit_timeout_secs: default_quit_timeout_secs(),
        }
    }
}

impl Default for Config {
    fn default() -> (c: Self)
        ensures
            c@ == default_config(),
    {
        let mut apps: Vec<AppTarget> = Vec::new();
        apps.push(AppTarget { name: String::from_str("Cursor"), delay_ms: 500, timeout_secs: None });
        apps.push(
            AppTarget { name: String::from_str("Google Chrome"), delay_ms: 500, timeout_secs: None },
        );
        let mut urls: Vec<UrlTarget> = Vec::new();
        urls.push(UrlTarget { url: String::from_str("https://calendar.google.com"), delay_ms: 300 });
        let mut commands: Vec<CommandTarget> = Vec::new();
        commands.push(
            CommandTarget {
                name: Some(String::from_str("start dev service")),
                cmd: String::from_str("cd ~/project && npm run dev"),
                delay_ms: 0,
            },
        );
        let c = Config { off: OffConfig::default(), apps, urls, commands };
        assert(c@ =~= default_config());
        c
    }
}

/// Why a configuration path could not be worked out.
#[derive(Debug, Clone, Copy, PartialEq, Eq, Structural)]
pub enum PathError {
    /// The path starts with `~`, and `HOME` is not set.
    HomeNotSet,
    /// No path was given, and `HOME` is not set.
    HomeNotSetNoOverride,
}

impl PathError {
    /// The message shown to the user.
    pub fn message(&self) -> (m: &'static str)
        ensures
            *self == PathError::HomeNotSet ==> m@ == "HOME is not set"@,
            *self == PathError::HomeNotSetNoOverride ==> m@
                == "HOME is not set; pass --config <PATH> instead"@,
    {
        match self {
            PathError::HomeNotSet => "HOME is not set",
            PathError::HomeNotSetNoOverride => "HOME is not set; pass --config <PATH> instead",
        }
    }
}

/// Why `config init` refuses to write.
#[derive(Debug, Clone, Copy, PartialEq, Eq, Structural)]
pub enum InitError {
    /// A configuration file is already there, and overwriting was not asked for.
    AlreadyExists,
}

/// The path of the configuration file, below the home directory.
pub open spec fn default_config_suffix() -> Seq<char> {
    ".config/ezhomie/config.toml"@
}

/// `rest` appended to the path `base`, as a Unix path join does: a `rest`
/// that starts at the root replaces `base`; otherwise one `/` stands between
/// them unless `base` is empty or already ends with one.
pub open spec fn join_path(base: Seq<char>, rest: Seq<char>) -> Seq<char> {
    if rest.len() > 0 && rest[0] == '/' {
        rest
    } else if base.len() == 0 || base.last() == '/' {
        base + rest
    } else {
        base + seq!['/'] + rest
    }
}

/// The path with a leading `~` (alone, or followed by `/`) replaced by the
/// home directory; any other path as it is.
pub open spec fn expanded_path(path: Seq<char>, home: Option<Seq<char>>) -> Result<
    Seq<char>,
    PathError,
> {
    if path == seq!['~'] {
        match home {
            Some(h) => Ok(h),
            None => Err(PathError::HomeNotSet),
        }
    } else if path.len() >= 2 && path[0] == '~' && path[1] == '/' {
        match home {
            Some(h) => Ok(join_path(h, path.subrange(2, path.len() as int))),
            None => Err(PathError::HomeNotSet),
        }
    } else {
        Ok(path)
    }
}

/// The configuration path: the given one, expanded; else the default one
/// below the home directory.
pub open spec fn config_path(override_path: Option<Seq<char>>, home: Option<Seq<char>>) -> Result<
    Seq<char>,
    PathError,
> {
    match override_path {
        Some(p) => expanded_path(p, home),
        None => match home {
            Some(h) => Ok(join_path(h, default_config_suffix())),
            None => Err(PathError::HomeNotSetNoOverride),
        },
    }
}

/// A path result as a mathematical value.
pub open spec fn path_result_view(r: Result<String, PathError>) -> Result<Seq<char>, PathError> {
    match r {
        Ok(s) => Ok(s@),
        Err(e) => Err(e),
    }
}

/// Joins two paths as [`join_path`] says.
pub fn join_path_string(base: &str, rest: &str) -> (s: String)
    ensures
        s@ == join_path(base@, rest@),
{
    let rest_len = rest.unicode_len();
    let base_len = base.unicode_len();
    if rest_len > 0 && rest.get_char(0) == '/' {
        String::from_str(rest)
    } else if base_len == 0 || base.get_char(base_len - 1) == '/' {
        joined(base, rest)
    } else {
        let mut s = String::from_str(base);
        push_char(&mut s, '/');
        s.append(rest);
        s
    }
}

/// Replaces a leading `~` of `path` by the home directory `home`.
pub fn expand_tilde(path: String, home: Option<String>) -> (r: Result<String, PathError>)
    ensures
        path_result_view(r) == expanded_path(path@, opt_view(home)),
        !starts_with_home(path@) ==> (r matches Ok(p) && p@ == path@),
        starts_with_home(path@) && home is None ==> r == Err::<String, PathError>(
            PathError::HomeNotSet,
        ),
        path@ == seq!['~'] && home is Some ==> (r matches Ok(p) && p@ == home->0@),
{
    proof {
        lemma_expanded_path_cases(path@, opt_view(home));
    }
    let len = path.as_str().unicode_len();
    if len == 1 && path.as_str().get_char(0) == '~' {
        assert(path@ =~= seq!['~']);
        return match home {
            Some(h) => Ok(h),
            None => Err(PathError::HomeNotSet),
        };
    }
    if len >= 2 && path.as_str().get_char(0) == '~' && path.as_str().get_char(1) == '/' {
        assert(path@ != seq!['~']);
        return match home {
            Some(h) => {
                let rest = path.as_str().substring_char(2, len);
                Ok(join_path_string(h.as_str(), rest))
            },
            None => Err(PathError::HomeNotSet),
        };
    }
    Ok(path)
}

/// The path of the configuration file: `override_path` with a leading `~`
/// expanded, or else `.config/ezhomie/config.toml` below the home directory.
pub fn resolve_config_path(override_path: Option<String>, home: Option<String>) -> (r: Result<
    String,
    PathError,
>)
    ensures
        path_result_view(r) == config_path(opt_view(override_path), opt_view(home)),
        override_path is Some && !starts_with_home(override_path->0@) ==> (r matches Ok(q) && q@
            == override_path->0@),
        override_path is None && home is None ==> r == Err::<String, PathError>(
            PathError::HomeNotSetNoOverride,
        ),
        override_path is None && home is Some && home->0@.len() > 0 && home->0@.last() != '/' ==> (
        r matches Ok(q) && q@ == home->0@ + "/.config/ezhomie/config.toml"@),
{
    proof {
        lemma_default_path_below_home(opt_view(home));
        if override_path is Some {
            lemma_expanded_path_cases(override_path->0@, opt_view(home));
        }
    }
    match override_path {
        Some(p) => expand_tilde(p, home),
        None => match home {
            Some(h) => Ok(join_path_string(h.as_str(), ".config/ezhomie/config.toml")),
            None => Err(PathError::HomeNotSetNoOverride),
        },
    }
}

/// Whether `config init` may write the file: not over an existing one unless forced.
pub fn check_init(exists: bool, force: bool) -> (r: Result<(), InitError>)
    ensures
        r is Err <==> exists && !force,
{
    if exists && !force {
        Err(InitError::AlreadyExists)
    } else {
        Ok(())
    }
}

/// Whether a path starts with the home directory's `~`: `~` alone, or `~/`.
pub open spec fn starts_with_home(path: Seq<char>) -> bool {
    path == seq!['~'] || (path.len() >= 2 && path[0] == '~' && path[1] == '/')
}

/// Only a leading `~` refers to the home directory: any other path is kept
/// exactly as given, whatever the home directory; `~` alone is the home
/// directory; a `~/` path needs a home directory and is placed below it.
pub proof fn lemma_expanded_path_cases(path: Seq<char>, home: Option<Seq<char>>)
    ensures
        !starts_with_home(path) ==> expanded_path(path, home) == Ok::<Seq<char>, PathError>(path),
        starts_with_home(path) && home is None ==> expanded_path(path, home) == Err::<
            Seq<char>,
            PathError,
        >(PathError::HomeNotSet),
        path == seq!['~'] && home is Some ==> expanded_path(path, home) == Ok::<
            Seq<char>,
            PathError,
        >(home->0),
        path.len() >= 2 && path[0] == '~' && path[1] == '/' && home is Some ==> (expanded_path(
            path,
            home,
        ) matches Ok(p) && p.len() >= path.len() - 2 && p.subrange(
            p.len() - (path.len() - 2),
            p.len() as int,
        ) == path.subrange(2, path.len() as int)),
        path.len() >= 2 && path[0] == '~' && path[1] == '/' && !(path.len() > 2 && path[2] == '/')
            && home is Some && home->0.len() > 0 && home->0.last() != '/' ==> expanded_path(
            path,
            home,
        ) == Ok::<Seq<char>, PathError>(home->0 + seq!['/'] + path.subrange(2, path.len() as int)),
{
    if path.len() >= 2 && path[0] == '~' && path[1] == '/' && home is Some {
        lemma_join_path(home->0, path.subrange(2, path.len() as int));
    }
    if path.len() >= 2 && path[0] == '~' && path[1] == '/' && home is Some {
        assert(path != seq!['~']);
        let h = home->0;
        let rest = path.subrange(2, path.len() as int);
        let p = join_path(h, rest);
        if rest.len() > 0 && rest[0] == '/' {
            assert(p.subrange(p.len() - rest.len(), p.len() as int) =~= rest);
        } else if h.len() == 0 || h.last() == '/' {
            assert(p.subrange(p.len() - rest.len(), p.len() as int) =~= rest);
        } else {
            assert(p.subrange(p.len() - rest.len(), p.len() as int) =~= rest);
        }
    }
}

/// Without a given path, the configuration file is `.config/ezhomie/config.toml`
/// inside the home directory.
pub proof fn lemma_default_path_below_home(home: Option<Seq<char>>)
    ensures
        home is None ==> config_path(None, home) == Err::<Seq<char>, PathError>(
            PathError::HomeNotSetNoOverride,
        ),
        home is Some && home->0.len() > 0 && home->0.last() != '/' ==> config_path(None, home)
            == Ok::<Seq<char>, PathError>(home->0 + "/.config/ezhomie/config.toml"@),
{
    reveal_strlit(".config/ezhomie/config.toml");
    reveal_strlit("/.config/ezhomie/config.toml");
    if let Some(h) = home {
        assert(h + seq!['/'] + default_config_suffix() =~= h + "/.config/ezhomie/config.toml"@);
    }
}

/// Joining keeps the appended part at the end; a relative part lands below
/// the base, with exactly one `/` between them.
pub proof fn lemma_join_path(base: Seq<char>, rest: Seq<char>)
    ensures
        join_path(base, rest).len() >= rest.len(),
        join_path(base, rest).subrange(
            join_path(base, rest).len() - rest.len(),
            join_path(base, rest).len() as int,
        ) == rest,
        !(rest.len() > 0 && rest[0] == '/') ==> join_path(base, rest).subrange(0, base.len() as int)
            == base,
        !(rest.len() > 0 && rest[0] == '/') && base.len() > 0 && base.last() != '/' ==> join_path(
            base,
            rest,
        ) == base + seq!['/'] + rest,
        rest.len() > 0 && rest[0] == '/' ==> join_path(base, rest) == rest,
{
    let j = join_path(base, rest);
    assert(j.subrange(j.len() - rest.len(), j.len() as int) =~= rest);
    if !(rest.len() > 0 && rest[0] == '/') {
        assert(j.subrange(0, base.len() as int) =~= base);
    }
}

} // verus!
