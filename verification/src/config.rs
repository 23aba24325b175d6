//! Configuration: profiles, the resolved runtime configuration, and the
//! resolution rule (command line over environment over profile file over
//! defaults). Reading and writing the profile file itself is I/O and stays
//! with the binary; this module works on the file's parsed contents.

use vstd::prelude::*;

use crate::strutil::push_char;
use crate::strutil::repeat_char;
use crate::types::OutputFormat;

verus! {

/// Credentials stored for one profile in the configuration file.
#[derive(Debug, Clone)]
pub struct Profile {
    pub public_key: Option<String>,
    pub secret_key: Option<String>,
    pub host: Option<String>,
}

impl Default for Profile {
    /// An empty profile: no key and no host.
    fn default() -> (r: Self)
        ensures
            r.public_key is None,
            r.secret_key is None,
            r.host is None,
    {
        Profile { public_key: None, secret_key: None, host: None }
    }
}

/// The parsed contents of the configuration file: named profiles, in file
/// order, each name at most once.
#[derive(Debug, Clone)]
pub struct ConfigFile {
    pub profiles: Vec<(String, Profile)>,
}

impl Default for ConfigFile {
    /// A configuration file without any profile.
    fn default() -> (r: Self)
        ensures
            r.profiles@.len() == 0,
    {
        ConfigFile { profiles: Vec::new() }
    }
}

/// The index of the first profile with the given name, or the list length.
pub open spec fn profile_index(ps: Seq<(String, Profile)>, name: Seq<char>) -> int
    decreases ps.len(),
{
    if ps.len() == 0 {
        0
    } else if ps[0].0@ == name {
        0
    } else {
        1 + profile_index(ps.drop_first(), name)
    }
}

/// The profile stored under the given name, if any.
pub open spec fn spec_profile_lookup(ps: Seq<(String, Profile)>, name: Seq<char>) -> Option<
    Profile,
>
    decreases ps.len(),
{
    if ps.len() == 0 {
        None
    } else if ps[0].0@ == name {
        Some(ps[0].1)
    } else {
        spec_profile_lookup(ps.drop_first(), name)
    }
}

/// The view of an optional string.
pub open spec fn opt_view(o: Option<String>) -> Option<Seq<char>> {
    match o {
        Some(s) => Some(s@),
        None => None,
    }
}

/// Environment-supplied configuration candidates, read by the binary and
/// handed in as plain values.
#[derive(Debug, Clone, Default)]
pub struct EnvConfig {
    pub profile: Option<String>,
    pub public_key: Option<String>,
    pub secret_key: Option<String>,
    pub host: Option<String>,
}

/// Runtime configuration with resolved values.
#[derive(Debug, Clone)]
pub struct Config {
    pub public_key: Option<String>,
    pub secret_key: Option<String>,
    pub host: String,
    pub profile: String,
    pub format: OutputFormat,
    pub limit: u32,
    pub page: u32,
    pub output: Option<String>,
    pub verbose: bool,
    pub no_color: bool,
}

impl Default for Config {
    /// No credentials, the hosted default endpoint, profile `default`,
    /// table output, 50 records, first page.
    fn default() -> (r: Self)
        ensures
            r.public_key is None,
            r.secret_key is None,
            r.host@ == "https://cloud.langfuse.com"@,
            r.profile@ == "default"@,
            r.format == OutputFormat::Table,
            r.limit == 50,
            r.page == 1,
            r.output is None,
            !r.verbose,
            !r.no_color,
    {
        Config {
            public_key: None,
            secret_key: None,
            host: String::from_str("https://cloud.langfuse.com"),
            profile: String::from_str("default"),
            format: OutputFormat::Table,
            limit: 50,
            page: 1,
            output: None,
            verbose: false,
            no_color: false,
        }
    }
}

/// Resolution of one optional string setting: the command line wins, then
/// the environment, then the profile file.
pub open spec fn resolve3(
    cli: Option<Seq<char>>,
    env: Option<Seq<char>>,
    file: Option<Seq<char>>,
) -> Option<Seq<char>> {
    if cli is Some {
        cli
    } else if env is Some {
        env
    } else {
        file
    }
}

fn pick3(cli: Option<&str>, env: &Option<String>, file: Option<&String>) -> (r: Option<String>)
    ensures
        opt_view(r) == resolve3(
            match cli {
                Some(s) => Some(s@),
                None => None,
            },
            opt_view(*env),
            match file {
                Some(s) => Some(s@),
                None => None,
            },
        ),
{
    match cli {
        Some(s) => Some(String::from_str(s)),
        None => match env {
            Some(s) => Some(s.clone()),
            None => match file {
                Some(s) => Some(s.clone()),
                None => None,
            },
        },
    }
}

/// The view of an optional string slice.
pub open spec fn opt_str_view(o: Option<&str>) -> Option<Seq<char>> {
    match o {
        Some(s) => Some(s@),
        None => None,
    }
}

/// What it means for `r` to be the configuration resolved from the given
/// command-line values, environment values, and parsed profile file: for
/// the profile name and each credential the command line wins, then the
/// environment, then the file's profile of that name; the host falls back
/// to the hosted default endpoint, the other settings to table output,
/// 50 records, page one.
pub open spec fn resolves_config(
    profile: Option<Seq<char>>,
    public_key: Option<Seq<char>>,
    secret_key: Option<Seq<char>>,
    host: Option<Seq<char>>,
    format: Option<OutputFormat>,
    limit: Option<u32>,
    page: Option<u32>,
    output: Option<Seq<char>>,
    verbose: bool,
    no_color: bool,
    env: EnvConfig,
    config_file: ConfigFile,
    r: Config,
) -> bool {
    let fp = spec_profile_lookup(config_file.profiles@, r.profile@);
    let fpk = match fp {
        Some(p) => opt_view(p.public_key),
        None => None,
    };
    let fsk = match fp {
        Some(p) => opt_view(p.secret_key),
        None => None,
    };
    let fh = match fp {
        Some(p) => opt_view(p.host),
        None => None,
    };
    &&& r.profile@ == match (profile, opt_view(env.profile)) {
        (Some(p), _) => p,
        (None, Some(p)) => p,
        (None, None) => "default"@,
    }
    &&& opt_view(r.public_key) == resolve3(public_key, opt_view(env.public_key), fpk)
    &&& opt_view(r.secret_key) == resolve3(secret_key, opt_view(env.secret_key), fsk)
    &&& r.host@ == match resolve3(host, opt_view(env.host), fh) {
        Some(h) => h,
        None => "https://cloud.langfuse.com"@,
    }
    &&& r.format == match format {
        Some(f) => f,
        None => OutputFormat::Table,
    }
    &&& r.limit == match limit {
        Some(l) => l,
        None => 50u32,
    }
    &&& r.page == match page {
        Some(p) => p,
        None => 1u32,
    }
    &&& opt_view(r.output) == output
    &&& r.verbose == verbose
    &&& r.no_color == no_color
}

/// Finds the index of the first profile with the given name, or the list
/// length when no profile has it.
fn find_profile_index(config_file: &ConfigFile, profile_name: &str) -> (r: usize)
    ensures
        r as int == profile_index(config_file.profiles@, profile_name@),
        r <= config_file.profiles@.len(),
        r < config_file.profiles@.len() ==> config_file.profiles@[r as int].0@ == profile_name@,
{
    let name_string = String::from_str(profile_name);
    let n = config_file.profiles.len();
    let mut i: usize = 0;
    proof {
        assert(config_file.profiles@.skip(0) =~= config_file.profiles@);
    }
    while i < n
        invariant
            i <= n,
            n == config_file.profiles@.len(),
            name_string@ == profile_name@,
            profile_index(config_file.profiles@, profile_name@) == i + profile_index(
                config_file.profiles@.skip(i as int),
                profile_name@,
            ),
        decreases n - i,
    {
        proof {
            assert(config_file.profiles@.skip(i as int)[0] == config_file.profiles@[i as int]);
            assert(config_file.profiles@.skip(i as int).drop_first()
                =~= config_file.profiles@.skip(i + 1));
        }
        if config_file.profiles[i].0.eq(&name_string) {
            proof {
                assert(profile_index(config_file.profiles@.skip(i as int), profile_name@) == 0);
            }
            return i;
        }
        i = i + 1;
    }
    proof {
        assert(config_file.profiles@.skip(n as int) =~= Seq::<(String, Profile)>::empty());
    }
    n
}

impl Config {
    /// Whether the configuration can authenticate: both keys present and a
    /// non-empty host.
    pub fn is_valid(&self) -> (r: bool)
        ensures
            r == (self.public_key is Some && self.secret_key is Some && self.host@.len() > 0),
    {
        self.public_key.is_some() && self.secret_key.is_some() && !self.host.as_str().is_empty()
    }

    /// Resolves the effective configuration from command-line values, the
    /// environment's values, and the parsed profile file, in that order of
    /// priority, with built-in defaults last.
    pub fn load(
        profile: Option<&str>,
        public_key: Option<&str>,
        secret_key: Option<&str>,
        host: Option<&str>,
        format: Option<OutputFormat>,
        limit: Option<u32>,
        page: Option<u32>,
        output: Option<&str>,
        verbose: bool,
        no_color: bool,
        env: &EnvConfig,
        config_file: &ConfigFile,
    ) -> (r: Config)
        ensures
            resolves_config(
                opt_str_view(profile),
                opt_str_view(public_key),
                opt_str_view(secret_key),
                opt_str_view(host),
                format,
                limit,
                page,
                opt_str_view(output),
                verbose,
                no_color,
                *env,
                *config_file,
                r,
            ),
    {
        let profile_name: String = match profile {
            Some(p) => String::from_str(p),
            None => match &env.profile {
                Some(p) => p.clone(),
                None => String::from_str("default"),
            },
        };
        let file_profile = Self::get_profile(config_file, profile_name.as_str());
        let (fpk, fsk, fh): (Option<&String>, Option<&String>, Option<&String>) =
            match &file_profile {
            Some(p) => (p.public_key.as_ref(), p.secret_key.as_ref(), p.host.as_ref()),
            None => (None, None, None),
        };
        let resolved_public_key = pick3(public_key, &env.public_key, fpk);
        let resolved_secret_key = pick3(secret_key, &env.secret_key, fsk);
        let resolved_host = match pick3(host, &env.host, fh) {
            Some(h) => h,
            None => String::from_str("https://cloud.langfuse.com"),
        };
        Config {
            public_key: resolved_public_key,
            secret_key: resolved_secret_key,
            host: resolved_host,
            profile: profile_name,
            format: match format {
                Some(f) => f,
                None => OutputFormat::Table,
            },
            limit: match limit {
                Some(l) => l,
                None => 50,
            },
            page: match page {
                Some(p) => p,
                None => 1,
            },
            output: match output {
                Some(o) => Some(String::from_str(o)),
                None => None,
            },
            verbose,
            no_color,
        }
    }

    /// Sets a profile in the parsed configuration file: the first entry
    /// with this name is replaced, or a new entry is appended.
    pub fn set_profile(
        config_file: &mut ConfigFile,
        profile_name: &str,
        public_key: &str,
        secret_key: &str,
        host: Option<&str>,
    )
        ensures
            ({
                let ps = old(config_file).profiles@;
                let k = profile_index(ps, profile_name@);
                let entry = final(config_file).profiles@[k];
                &&& final(config_file).profiles@.len() == (if k < ps.len() {
                    ps.len()
                } else {
                    ps.len() + 1
                })
                &&& forall|j: int| 0 <= j < ps.len() && j != k ==> final(config_file).profiles@[j] == ps[j]
                &&& entry.0@ == profile_name@
                &&& opt_view(entry.1.public_key) == Some(public_key@)
                &&& opt_view(entry.1.secret_key) == Some(secret_key@)
                &&& opt_view(entry.1.host) == match host {
                    Some(h) => Some(h@),
                    None => None::<Seq<char>>,
                }
            }),
    {
        let new_profile = Profile {
            public_key: Some(String::from_str(public_key)),
            secret_key: Some(String::from_str(secret_key)),
            host: match host {
                Some(h) => Some(String::from_str(h)),
                None => None,
            },
        };
        let name_string = String::from_str(profile_name);
        let k = find_profile_index(config_file, profile_name);
        if k < config_file.profiles.len() {
            config_file.profiles.set(k, (name_string, new_profile));
        } else {
            config_file.profiles.push((name_string, new_profile));
        }
    }

    /// Reads a profile from the parsed configuration file.
    pub fn get_profile<'a>(config_file: &'a ConfigFile, profile_name: &str) -> (r: Option<
        &'a Profile,
    >)
        ensures
            r is Some <==> spec_profile_lookup(config_file.profiles@, profile_name@) is Some,
            r matches Some(p) ==> Some(*p) == spec_profile_lookup(
                config_file.profiles@,
                profile_name@,
            ),
    {
        let name_string = String::from_str(profile_name);
        let n = config_file.profiles.len();
        let mut i: usize = 0;
        proof {
            assert(config_file.profiles@.skip(0) =~= config_file.profiles@);
        }
        while i < n
            invariant
                i <= n,
                n == config_file.profiles@.len(),
                name_string@ == profile_name@,
                spec_profile_lookup(config_file.profiles@, profile_name@) == spec_profile_lookup(
                    config_file.profiles@.skip(i as int),
                    profile_name@,
                ),
            decreases n - i,
        {
            proof {
                assert(config_file.profiles@.skip(i as int)[0] == config_file.profiles@[i as int]);
                assert(config_file.profiles@.skip(i as int).drop_first()
                    =~= config_file.profiles@.skip(i + 1));
            }
            if config_file.profiles[i].0.eq(&name_string) {
                proof {
                    assert(spec_profile_lookup(
                        config_file.profiles@.skip(i as int),
                        profile_name@,
                    ) == Some(config_file.profiles@[i as int].1));
                }
                return Some(&config_file.profiles[i].1);
            }
            i = i + 1;
        }
        proof {
            assert(config_file.profiles@.skip(n as int)
                =~= Seq::<(String, Profile)>::empty());
        }
        None
    }

    /// Lists the profile names in the parsed configuration file, in file
    /// order.
    pub fn list_profiles(config_file: &ConfigFile) -> (r: Vec<String>)
        ensures
            r@.len() == config_file.profiles@.len(),
            forall|i: int|
                0 <= i < r@.len() ==> r@[i]@ == config_file.profiles@[i].0@,
    {
        let n = config_file.profiles.len();
        let mut names: Vec<String> = Vec::new();
        let mut i: usize = 0;
        while i < n
            invariant
                i <= n,
                n == config_file.profiles@.len(),
                names@.len() == i,
                forall|j: int| 0 <= j < i ==> names@[j]@ == config_file.profiles@[j].0@,
            decreases n - i,
        {
            names.push(config_file.profiles[i].0.clone());
            i = i + 1;
        }
        names
    }

    /// Masks a key for display: a key of more than eight characters shows
    /// its first eight characters followed by eight asterisks; a shorter
    /// key is replaced by one asterisk per character.
    pub fn mask_key(key: &str) -> (r: String)
        ensures
            key@.len() <= 8 ==> r@ == Seq::new(key@.len(), |i: int| '*'),
            key@.len() > 8 ==> r@ == key@.take(8) + Seq::new(8, |i: int| '*'),
    {
        let n = key.unicode_len();
        if n <= 8 {
            repeat_char('*', n)
        } else {
            let mut out = String::new();
            let mut i: usize = 0;
            while i < 8
                invariant
                    i <= 8,
                    key@.len() > 8,
                    out@ == key@.take(i as int),
                decreases 8 - i,
            {
                push_char(&mut out, key.get_char(i));
                proof {
                    assert(out@ =~= key@.take(i + 1));
                }
                i = i + 1;
            }
            let stars = repeat_char('*', 8);
            out.append(stars.as_str());
            out
        }
    }
}

/// Builds the runtime configuration from command-line values, the
/// environment's values, and the parsed profile file.
pub fn build_config(
    profile: Option<&str>,
    public_key: Option<&str>,
    secret_key: Option<&str>,
    host: Option<&str>,
    format: Option<OutputFormat>,
    limit: Option<u32>,
    page: Option<u32>,
    output: Option<&str>,
    verbose: bool,
    no_color: bool,
    env: &EnvConfig,
    config_file: &ConfigFile,
) -> (r: Config)
    ensures
        resolves_config(
            opt_str_view(profile),
            opt_str_view(public_key),
            opt_str_view(secret_key),
            opt_str_view(host),
            format,
            limit,
            page,
            opt_str_view(output),
            verbose,
            no_color,
            *env,
            *config_file,
            r,
        ),
{
    Config::load(
        profile,
        public_key,
        secret_key,
        host,
        format,
        limit,
        page,
        output,
        verbose,
        no_color,
        env,
        config_file,
    )
}

} // verus!
