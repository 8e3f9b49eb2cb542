//! The provider command lines: what runs, what it needs from the
//! environment, and how it is shown without secrets.
use crate::config::{opt_view, provider_display_name, NowConfig, ProviderKind};
use crate::text::{
    chars_of, is_ascii_alnum, is_ascii_alnum_char, join, push_char, push_str, trim,
    trim_end_index, trim_start_index, string_of_range,
};
use vstd::prelude::*;

verus! {

/// The views of a sequence of strings.
pub open spec fn views(v: Seq<String>) -> Seq<Seq<char>> {
    v.map_values(|s: String| s@)
}

/// The views of a sequence of string pairs.
pub open spec fn pair_views(v: Seq<(String, String)>) -> Seq<(Seq<char>, Seq<char>)> {
    v.map_values(|p: (String, String)| (p.0@, p.1@))
}

/// Characters that need no quoting in a shell word.
pub open spec fn is_shell_safe(c: char) -> bool {
    is_ascii_alnum(c) || c == '-' || c == '_' || c == '.' || c == '/' || c == ':' || c == '$'
        || c == '=' || c == '@' || c == '%' || c == '+'
}

/// Each `'` written as `'\''`, the rest unchanged.
pub open spec fn escape_single_quotes(v: Seq<char>) -> Seq<char>
    decreases v.len(),
{
    if v.len() == 0 {
        Seq::<char>::empty()
    } else {
        escape_single_quotes(v.drop_last()) + if v.last() == '\'' {
            seq!['\'', '\\', '\'', '\'']
        } else {
            seq![v.last()]
        }
    }
}

/// A word as the shell reads it back: bare when every character is safe,
/// else in single quotes.
pub open spec fn shell_quoted(v: Seq<char>) -> Seq<char> {
    if v.len() > 0 && forall|i: int| 0 <= i < v.len() ==> is_shell_safe(#[trigger] v[i]) {
        v
    } else {
        seq!['\''] + escape_single_quotes(v) + seq!['\'']
    }
}

/// Words quoted and separated by single spaces.
pub open spec fn shell_joined(words: Seq<Seq<char>>) -> Seq<char> {
    join(words.map_values(|w: Seq<char>| shell_quoted(w)), seq![' '])
}

/// A configured value with surrounding whitespace removed, when anything
/// is left.
pub open spec fn non_empty_spec(o: Option<Seq<char>>) -> Option<Seq<char>> {
    match o {
        Some(s) => if trim(s).len() > 0 {
            Some(trim(s))
        } else {
            None
        },
        None => None,
    }
}

/// `non_empty_spec`, or a default.
pub open spec fn or_default(o: Option<Seq<char>>, d: Seq<char>) -> Seq<char> {
    match non_empty_spec(o) {
        Some(s) => s,
        None => d,
    }
}

/// Why no provider command can be built or run.
#[derive(Debug)]
pub enum ProviderError {
    /// Azure Storage Blob is uploaded by this program itself.
    BuiltInUpload,
    /// FTP needs `ftp.host`.
    MissingFtpHost,
    /// Environment variables that the provider needs are unset.
    MissingEnvironment { provider: ProviderKind, names: Vec<String> },
    /// A variable that is passed on to the provider is unset.
    MissingMappedVariable { name: String },
}

/// A command that deploys through a provider's own tool.
#[derive(Debug)]
pub struct ProviderCommand {
    pub provider: ProviderKind,
    pub program: String,
    pub args: Vec<String>,
    pub required_cli: String,
    pub required_env: Vec<String>,
    pub env_mappings: Vec<(String, String)>,
    pub cwd: Option<String>,
    pub display_program: String,
    pub display_args: Vec<String>,
}

impl ProviderCommand {
    /// The words shown to users in place of the command that runs.
    pub open spec fn display_words(&self) -> Seq<Seq<char>> {
        seq![self.display_program@] + views(self.display_args@)
    }

    /// A command that is shown as it runs.
    pub fn new(provider: ProviderKind, program: String, args: Vec<String>, required_cli: String) -> (r: Self)
        ensures
            r.provider == provider,
            r.program@ == program@,
            views(r.args@) == views(args@),
            r.required_cli@ == required_cli@,
            r.required_env@.len() == 0,
            r.env_mappings@.len() == 0,
            r.cwd is None,
            r.display_words() == seq![program@] + views(args@),
    {
        let display_program = program.clone();
        let display_args = clone_strings(&args);
        ProviderCommand {
            provider,
            display_program,
            display_args,
            program,
            args,
            required_cli,
            required_env: Vec::new(),
            env_mappings: Vec::new(),
            cwd: None,
        }
    }

    /// The same command with the environment variables it needs.
    pub fn with_required_env(self, names: Vec<String>) -> (r: Self)
        ensures
            r.provider == self.provider,
            r.program == self.program,
            r.args == self.args,
            r.required_cli == self.required_cli,
            r.required_env == names,
            r.env_mappings == self.env_mappings,
            r.cwd == self.cwd,
            r.display_words() == self.display_words(),
    {
        ProviderCommand { required_env: names, ..self }
    }

    /// The same command, passing the variable `source_name` on as `target_name`.
    pub fn with_env_mapping(self, target_name: String, source_name: String) -> (r: Self)
        ensures
            r.provider == self.provider,
            r.program == self.program,
            r.args == self.args,
            r.required_cli == self.required_cli,
            r.required_env == self.required_env,
            r.env_mappings@ == self.env_mappings@.push((target_name, source_name)),
            r.cwd == self.cwd,
            r.display_words() == self.display_words(),
    {
        let mut mappings = self.env_mappings;
        mappings.push((target_name, source_name));
        ProviderCommand { env_mappings: mappings, ..self }
    }

    /// The same command, shown as `program` with `args`.
    pub fn with_display(self, program: String, args: Vec<String>) -> (r: Self)
        ensures
            r.provider == self.provider,
            r.program == self.program,
            r.args == self.args,
            r.required_cli == self.required_cli,
            r.required_env == self.required_env,
            r.env_mappings == self.env_mappings,
            r.cwd == self.cwd,
            r.display_words() == seq![program@] + views(args@),
    {
        ProviderCommand { display_program: program, display_args: args, ..self }
    }

    /// The same command with the provider's debug logging switched on:
    /// Firebase takes `--debug` before its other arguments; the other
    /// tools are left as they are.
    pub fn with_debug_logs(self) -> (r: Self)
        ensures
            r.provider == self.provider,
            r.program == self.program,
            r.required_cli == self.required_cli,
            r.required_env == self.required_env,
            r.env_mappings == self.env_mappings,
            r.cwd == self.cwd,
            self.provider == ProviderKind::Firebase ==> views(r.args@) == seq!["--debug"@] + views(
                self.args@,
            ),
            self.provider == ProviderKind::Firebase ==> r.display_words() == seq![
                self.display_words()[0],
                "--debug"@,
            ] + self.display_words().skip(1),
            self.provider != ProviderKind::Firebase ==> r.args == self.args && r.display_words()
                == self.display_words(),
    {
        if self.provider != ProviderKind::Firebase {
            return self;
        }
        let args = prepend_string("--debug".to_owned(), &self.args);
        let display_args = prepend_string("--debug".to_owned(), &self.display_args);
        let r = ProviderCommand { args, display_args, ..self };
        assert(r.display_words() =~= seq![self.display_words()[0], "--debug"@]
            + self.display_words().skip(1));
        r
    }

    /// The directory the command runs in: its own, else `default`.
    pub fn working_directory(&self, default: &str) -> (r: String)
        ensures
            r@ == (match self.cwd {
                Some(d) => d@,
                None => default@,
            }),
    {
        match &self.cwd {
            Some(d) => d.clone(),
            None => default.to_owned(),
        }
    }

    /// The command line shown to users.
    pub fn display_line(&self) -> (r: String)
        ensures
            r@ == shell_joined(self.display_words()),
    {
        let mut words = Vec::new();
        words.push(self.display_program.clone());
        let mut i: usize = 0;
        while i < self.display_args.len()
            invariant
                i <= self.display_args@.len(),
                views(words@) == seq![self.display_program@] + views(
                    self.display_args@.take(i as int),
                ),
            decreases self.display_args@.len() - i,
        {
            let c = self.display_args[i].clone();
            proof {
                lemma_views_push(words@, c);
                lemma_views_take_next(self.display_args@, i as int);
            }
            words.push(c);
            i = i + 1;
        }
        assert(self.display_args@.take(i as int) =~= self.display_args@);
        shell_join(&words)
    }

    /// The command line that runs.
    pub fn execution_line(&self) -> (r: String)
        ensures
            r@ == shell_joined(seq![self.program@] + views(self.args@)),
    {
        let mut words = Vec::new();
        words.push(self.program.clone());
        let mut i: usize = 0;
        while i < self.args.len()
            invariant
                i <= self.args@.len(),
                views(words@) == seq![self.program@] + views(self.args@.take(i as int)),
            decreases self.args@.len() - i,
        {
            let c = self.args[i].clone();
            proof {
                lemma_views_push(words@, c);
                lemma_views_take_next(self.args@, i as int);
            }
            words.push(c);
            i = i + 1;
        }
        assert(self.args@.take(i as int) =~= self.args@);
        shell_join(&words)
    }

    /// Checks that every required variable has a value: `values[i]` is
    /// the value found for `required_env[i]`. The error lists the names
    /// without a non-empty value, in order.
    pub fn validate_environment(&self, values: &Vec<Option<String>>) -> (r: Result<(), ProviderError>)
        requires
            values@.len() == self.required_env@.len(),
        ensures
            r is Ok <==> forall|i: int|
                0 <= i < values@.len() ==> has_value(#[trigger] values@[i]),
            r matches Err(ProviderError::MissingEnvironment { provider, names }) ==> provider
                == self.provider && views(names@) == missing_names(
                views(self.required_env@),
                values@,
            ),
            r matches Err(e) ==> e is MissingEnvironment,
    {
        let mut missing: Vec<String> = Vec::new();
        let mut i: usize = 0;
        while i < values.len()
            invariant
                i <= values@.len(),
                values@.len() == self.required_env@.len(),
                views(missing@) == missing_names(
                    views(self.required_env@).take(i as int),
                    values@.take(i as int),
                ),
                missing@.len() == 0 <==> forall|j: int|
                    0 <= j < i ==> has_value(#[trigger] values@[j]),
            decreases values@.len() - i,
        {
            assert(views(self.required_env@).take(i + 1).drop_last() =~= views(
                self.required_env@,
            ).take(i as int));
            assert(values@.take(i + 1).drop_last() =~= values@.take(i as int));
            let present = match &values[i] {
                Some(v) => !v.as_str().is_empty(),
                None => false,
            };
            if !present {
                missing.push(self.required_env[i].clone());
            }
            i = i + 1;
            assert(views(missing@) =~= missing_names(
                views(self.required_env@).take(i as int),
                values@.take(i as int),
            ));
        }
        assert(views(self.required_env@).take(i as int) =~= views(self.required_env@));
        assert(values@.take(i as int) =~= values@);
        if missing.len() == 0 {
            Ok(())
        } else {
            Err(ProviderError::MissingEnvironment { provider: self.provider, names: missing })
        }
    }

    /// The variables to set for the provider's process: for each mapping
    /// `(target, source)`, `target` gets the value found for `source`
    /// (`values[i]` for mapping `i`). Fails on the first mapping without a
    /// value.
    pub fn apply_environment(&self, values: &Vec<Option<String>>) -> (r: Result<
        Vec<(String, String)>,
        ProviderError,
    >)
        requires
            values@.len() == self.env_mappings@.len(),
        ensures
            r is Ok <==> forall|i: int| 0 <= i < values@.len() ==> #[trigger] values@[i] is Some,
            r matches Ok(pairs) ==> pairs@.len() == values@.len() && forall|i: int|
                0 <= i < values@.len() ==> (#[trigger] pairs@[i]).0@ == self.env_mappings@[i].0@
                    && opt_view(values@[i]) == Some(pairs@[i].1@),
            r matches Err(e) ==> e matches ProviderError::MissingMappedVariable { name } && exists|
                i: int,
            |
                0 <= i < values@.len() && values@[i] is None && name@ == self.env_mappings@[i].1@
                    && forall|j: int| 0 <= j < i ==> values@[j] is Some,
    {
        let mut out: Vec<(String, String)> = Vec::new();
        let mut i: usize = 0;
        while i < values.len()
            invariant
                i <= values@.len(),
                values@.len() == self.env_mappings@.len(),
                out@.len() == i,
                forall|j: int| 0 <= j < i ==> #[trigger] values@[j] is Some,
                forall|j: int|
                    0 <= j < i ==> (#[trigger] out@[j]).0@ == self.env_mappings@[j].0@
                        && opt_view(values@[j]) == Some(out@[j].1@),
            decreases values@.len() - i,
        {
            match &values[i] {
                Some(v) => {
                    out.push((self.env_mappings[i].0.clone(), v.clone()));
                },
                None => {
                    return Err(
                        ProviderError::MissingMappedVariable {
                            name: self.env_mappings[i].1.clone(),
                        },
                    );
                },
            }
            i = i + 1;
        }
        Ok(out)
    }
}

/// Copies of the strings, in order.
pub fn clone_strings(v: &Vec<String>) -> (r: Vec<String>)
    ensures
        views(r@) == views(v@),
{
    let mut r: Vec<String> = Vec::new();
    let mut i: usize = 0;
    while i < v.len()
        invariant
            i <= v@.len(),
            views(r@) == views(v@.take(i as int)),
        decreases v@.len() - i,
    {
        let c = v[i].clone();
        proof {
            lemma_views_push(r@, c);
            lemma_views_take_next(v@, i as int);
        }
        r.push(c);
        i = i + 1;
    }
    assert(v@.take(i as int) =~= v@);
    r
}

fn prepend_string(first: String, rest: &Vec<String>) -> (r: Vec<String>)
    ensures
        views(r@) == seq![first@] + views(rest@),
{
    let mut r: Vec<String> = Vec::new();
    r.push(first);
    let mut i: usize = 0;
    while i < rest.len()
        invariant
            i <= rest@.len(),
            views(r@) == seq![first@] + views(rest@.take(i as int)),
        decreases rest@.len() - i,
    {
        let c = rest[i].clone();
        proof {
            lemma_views_push(r@, c);
            lemma_views_take_next(rest@, i as int);
        }
        r.push(c);
        i = i + 1;
    }
    assert(rest@.take(i as int) =~= rest@);
    r
}

pub proof fn lemma_views_push(s: Seq<String>, x: String)
    ensures
        views(s.push(x)) == views(s).push(x@),
{
    assert(views(s.push(x)) =~= views(s).push(x@));
}

pub proof fn lemma_views_take_next(s: Seq<String>, i: int)
    requires
        0 <= i < s.len(),
    ensures
        views(s.take(i + 1)) == views(s.take(i)).push(s[i]@),
{
    assert(s.take(i + 1) =~= s.take(i).push(s[i]));
    lemma_views_push(s.take(i), s[i]);
}

/// A value that is set and not empty.
pub open spec fn has_value(o: Option<String>) -> bool {
    o matches Some(v) && v@.len() > 0
}

/// The names whose value is missing or empty.
pub open spec fn missing_names(names: Seq<Seq<char>>, values: Seq<Option<String>>) -> Seq<
    Seq<char>,
>
    decreases names.len(),
{
    if names.len() == 0 || values.len() == 0 {
        Seq::<Seq<char>>::empty()
    } else {
        let r = missing_names(names.drop_last(), values.drop_last());
        if has_value(values.last()) {
            r
        } else {
            r.push(names.last())
        }
    }
}

fn is_shell_safe_char(c: char) -> (b: bool)
    ensures
        b == is_shell_safe(c),
{
    is_ascii_alnum_char(c) || c == '-' || c == '_' || c == '.' || c == '/' || c == ':' || c
        == '$' || c == '=' || c == '@' || c == '%' || c == '+'
}

/// A word quoted for the shell.
pub fn shell_quote(value: &str) -> (r: String)
    ensures
        r@ == shell_quoted(value@),
{
    let v = chars_of(value);
    let mut all_safe = v.len() > 0;
    let mut i: usize = 0;
    while i < v.len()
        invariant
            i <= v@.len(),
            v@ == value@,
            all_safe == (v@.len() > 0 && forall|j: int| 0 <= j < i ==> is_shell_safe(#[trigger] v@[j])),
        decreases v@.len() - i,
    {
        if !is_shell_safe_char(v[i]) {
            all_safe = false;
        }
        i = i + 1;
    }
    if all_safe {
        return crate::text::string_of(v.as_slice());
    }
    let mut r = String::new();
    push_char(&mut r, '\'');
    let mut k: usize = 0;
    while k < v.len()
        invariant
            k <= v@.len(),
            v@ == value@,
            r@ == seq!['\''] + escape_single_quotes(v@.take(k as int)),
        decreases v@.len() - k,
    {
        assert(v@.take(k + 1).drop_last() =~= v@.take(k as int));
        if v[k] == '\'' {
            push_char(&mut r, '\'');
            push_char(&mut r, '\\');
            push_char(&mut r, '\'');
            push_char(&mut r, '\'');
        } else {
            push_char(&mut r, v[k]);
        }
        k = k + 1;
        assert(r@ =~= seq!['\''] + escape_single_quotes(v@.take(k as int)));
    }
    push_char(&mut r, '\'');
    assert(v@.take(k as int) =~= v@);
    r
}

/// Words quoted and separated by single spaces.
pub fn shell_join(words: &Vec<String>) -> (r: String)
    ensures
        r@ == shell_joined(views(words@)),
{
    let ghost q = views(words@).map_values(|w: Seq<char>| shell_quoted(w));
    let mut r = String::new();
    let mut i: usize = 0;
    while i < words.len()
        invariant
            i <= words@.len(),
            q == views(words@).map_values(|w: Seq<char>| shell_quoted(w)),
            r@ == join(q.take(i as int), seq![' ']),
        decreases words@.len() - i,
    {
        let quoted = shell_quote(words[i].as_str());
        assert(q.take(i + 1).drop_last() =~= q.take(i as int));
        if i > 0 {
            push_char(&mut r, ' ');
        }
        push_str(&mut r, quoted.as_str());
        i = i + 1;
        proof {
            if i == 1 {
                assert(q.take(1) =~= seq![q[0]]);
            }
        }
        assert(r@ =~= join(q.take(i as int), seq![' ']));
    }
    assert(q.take(i as int) =~= q);
    r
}

/// A configured value with surrounding whitespace removed, when anything
/// is left.
pub fn non_empty(value: &Option<String>) -> (r: Option<String>)
    ensures
        opt_view(r) == non_empty_spec(opt_view(*value)),
{
    match value {
        Some(s) => {
            let v = chars_of(s.as_str());
            let a = trim_start_index(v.as_slice(), 0, v.len());
            let b = trim_end_index(v.as_slice(), a, v.len());
            assert(v@.subrange(0, v@.len() as int) =~= v@);
            if a == b {
                None
            } else {
                Some(string_of_range(v.as_slice(), a, b))
            }
        },
        None => None,
    }
}

fn non_empty_or(value: &Option<String>, default: &str) -> (r: String)
    ensures
        r@ == or_default(opt_view(*value), default@),
{
    match non_empty(value) {
        Some(s) => s,
        None => default.to_owned(),
    }
}

/// The `--only` target of a Firebase deploy: `hosting`, or
/// `hosting:<site>` for a configured site.
pub open spec fn firebase_only(c: NowConfig) -> Seq<char> {
    match c.firebase.site {
        Some(site) => "hosting:"@ + site@,
        None => "hosting"@,
    }
}

pub open spec fn firebase_args(c: NowConfig) -> Seq<Seq<char>> {
    let base = seq!["deploy"@, "--only"@, firebase_only(c)];
    match non_empty_spec(opt_view(c.firebase.project)) {
        Some(p) => base + seq!["--project"@, p],
        None => base,
    }
}

pub open spec fn swa_args(c: NowConfig, source: Seq<char>) -> Seq<Seq<char>> {
    let base = seq![
        "deploy"@,
        source,
        "--env"@,
        or_default(opt_view(c.azure_swa.environment), "production"@),
    ];
    match non_empty_spec(opt_view(c.azure_swa.app_name)) {
        Some(a) => base + seq!["--app-name"@, a],
        None => base,
    }
}

pub open spec fn swa_token_env(c: NowConfig) -> Seq<char> {
    or_default(opt_view(c.azure_swa.deployment_token_env), "SWA_CLI_DEPLOYMENT_TOKEN"@)
}

pub open spec fn ftp_remote_dir(c: NowConfig) -> Seq<char> {
    or_default(opt_view(c.ftp.remote_dir), "/"@)
}

pub open spec fn ftp_username_env(c: NowConfig) -> Seq<char> {
    or_default(opt_view(c.ftp.username_env), "NOW_FTP_USERNAME"@)
}

pub open spec fn ftp_password_env(c: NowConfig) -> Seq<char> {
    or_default(opt_view(c.ftp.password_env), "NOW_FTP_PASSWORD"@)
}

/// The lftp commands: mirror the source up to the remote directory.
pub open spec fn ftp_mirror(c: NowConfig, source: Seq<char>) -> Seq<char> {
    "set net:max-retries 2; mirror -R --only-newer "@ + shell_quoted(source) + " "@
        + shell_quoted(ftp_remote_dir(c)) + "; bye"@
}

/// The shell script that runs lftp with the credentials taken from the
/// environment.
pub open spec fn ftp_script(c: NowConfig, host: Seq<char>, source: Seq<char>) -> Seq<char> {
    "lftp -u \"$"@ + ftp_username_env(c) + "\",\"$"@ + ftp_password_env(c) + "\" "@
        + shell_quoted(host) + " -e "@ + shell_quoted(ftp_mirror(c, source))
}

/// What `build_provider_command` builds: the program, its arguments, the
/// tool to look for, the variables it needs, the variables passed on, and
/// the words shown to users.
pub open spec fn command_matches(
    cmd: ProviderCommand,
    provider: ProviderKind,
    program: Seq<char>,
    args: Seq<Seq<char>>,
    cli: Seq<char>,
    env: Seq<Seq<char>>,
    mappings: Seq<(Seq<char>, Seq<char>)>,
    display: Seq<Seq<char>>,
) -> bool {
    &&& cmd.provider == provider
    &&& cmd.program@ == program
    &&& views(cmd.args@) == args
    &&& cmd.required_cli@ == cli
    &&& views(cmd.required_env@) == env
    &&& pair_views(cmd.env_mappings@) == mappings
    &&& cmd.cwd is None
    &&& cmd.display_words() == display
}

/// The command for a provider. Azure Storage Blob has none: its files are
/// uploaded by this program. FTP needs `ftp.host`.
pub fn build_provider_command(provider: ProviderKind, config: &NowConfig, source: &str) -> (r: Result<
    ProviderCommand,
    ProviderError,
>)
    ensures
        provider == ProviderKind::Firebase ==> (r matches Ok(cmd) && command_matches(
            cmd,
            provider,
            "firebase"@,
            firebase_args(*config),
            "firebase"@,
            seq![],
            seq![],
            seq!["firebase"@] + firebase_args(*config),
        )),
        provider == ProviderKind::AzureBlob ==> r matches Err(ProviderError::BuiltInUpload),
        provider == ProviderKind::AzureSwa ==> (r matches Ok(cmd) && command_matches(
            cmd,
            provider,
            "swa"@,
            swa_args(*config, source@),
            "swa"@,
            seq![swa_token_env(*config)],
            seq![("SWA_CLI_DEPLOYMENT_TOKEN"@, swa_token_env(*config))],
            seq!["swa"@] + swa_args(*config, source@),
        )),
        provider == ProviderKind::Ftp ==> match non_empty_spec(opt_view(config.ftp.host)) {
            None => r matches Err(ProviderError::MissingFtpHost),
            Some(host) => r matches Ok(cmd) && command_matches(
                cmd,
                provider,
                "sh"@,
                seq!["-c"@, ftp_script(*config, host, source@)],
                "lftp"@,
                seq![ftp_username_env(*config), ftp_password_env(*config)],
                seq![],
                seq!["lftp"@, "-e"@, ftp_mirror(*config, source@), host],
            ),
        },
{
    match provider {
        ProviderKind::Firebase => Ok(firebase_command(config)),
        ProviderKind::AzureBlob => Err(ProviderError::BuiltInUpload),
        ProviderKind::AzureSwa => Ok(azure_swa_command(config, source)),
        ProviderKind::Ftp => ftp_command(config, source),
    }
}

fn firebase_command(config: &NowConfig) -> (r: ProviderCommand)
    ensures
        command_matches(
            r,
            ProviderKind::Firebase,
            "firebase"@,
            firebase_args(*config),
            "firebase"@,
            seq![],
            seq![],
            seq!["firebase"@] + firebase_args(*config),
        ),
{
    let only = match &config.firebase.site {
        Some(site) => {
            let mut s = "hosting:".to_owned();
            push_str(&mut s, site.as_str());
            s
        },
        None => "hosting".to_owned(),
    };
    let mut args: Vec<String> = Vec::new();
    args.push("deploy".to_owned());
    args.push("--only".to_owned());
    args.push(only);
    match non_empty(&config.firebase.project) {
        Some(project) => {
            args.push("--project".to_owned());
            args.push(project);
        },
        None => {},
    }
    assert(views(args@) =~= firebase_args(*config));
    let r = ProviderCommand::new(ProviderKind::Firebase, "firebase".to_owned(), args, "firebase".to_owned());
    assert(views(r.required_env@) =~= Seq::<Seq<char>>::empty());
    assert(pair_views(r.env_mappings@) =~= Seq::<(Seq<char>, Seq<char>)>::empty());
    r
}

fn azure_swa_command(config: &NowConfig, source: &str) -> (r: ProviderCommand)
    ensures
        command_matches(
            r,
            ProviderKind::AzureSwa,
            "swa"@,
            swa_args(*config, source@),
            "swa"@,
            seq![swa_token_env(*config)],
            seq![("SWA_CLI_DEPLOYMENT_TOKEN"@, swa_token_env(*config))],
            seq!["swa"@] + swa_args(*config, source@),
        ),
{
    let environment = non_empty_or(&config.azure_swa.environment, "production");
    let token_env = non_empty_or(&config.azure_swa.deployment_token_env, "SWA_CLI_DEPLOYMENT_TOKEN");
    let mut args: Vec<String> = Vec::new();
    args.push("deploy".to_owned());
    args.push(source.to_owned());
    args.push("--env".to_owned());
    args.push(environment);
    match non_empty(&config.azure_swa.app_name) {
        Some(app_name) => {
            args.push("--app-name".to_owned());
            args.push(app_name);
        },
        None => {},
    }
    assert(views(args@) =~= swa_args(*config, source@));
    let mut required: Vec<String> = Vec::new();
    required.push(token_env.clone());
    let r = ProviderCommand::new(ProviderKind::AzureSwa, "swa".to_owned(), args, "swa".to_owned())
        .with_required_env(required)
        .with_env_mapping("SWA_CLI_DEPLOYMENT_TOKEN".to_owned(), token_env);
    assert(views(r.required_env@) =~= seq![swa_token_env(*config)]);
    assert(pair_views(r.env_mappings@) =~= seq![("SWA_CLI_DEPLOYMENT_TOKEN"@, swa_token_env(*config))]);
    r
}

fn ftp_command(config: &NowConfig, source: &str) -> (r: Result<ProviderCommand, ProviderError>)
    ensures
        match non_empty_spec(opt_view(config.ftp.host)) {
            None => r matches Err(ProviderError::MissingFtpHost),
            Some(host) => r matches Ok(cmd) && command_matches(
                cmd,
                ProviderKind::Ftp,
                "sh"@,
                seq!["-c"@, ftp_script(*config, host, source@)],
                "lftp"@,
                seq![ftp_username_env(*config), ftp_password_env(*config)],
                seq![],
                seq!["lftp"@, "-e"@, ftp_mirror(*config, source@), host],
            ),
        },
{
    let host = match non_empty(&config.ftp.host) {
        Some(h) => h,
        None => return Err(ProviderError::MissingFtpHost),
    };
    let remote_dir = non_empty_or(&config.ftp.remote_dir, "/");
    let username_env = non_empty_or(&config.ftp.username_env, "NOW_FTP_USERNAME");
    let password_env = non_empty_or(&config.ftp.password_env, "NOW_FTP_PASSWORD");

    let mut mirror = "set net:max-retries 2; mirror -R --only-newer ".to_owned();
    push_str(&mut mirror, shell_quote(source).as_str());
    push_str(&mut mirror, " ");
    push_str(&mut mirror, shell_quote(remote_dir.as_str()).as_str());
    push_str(&mut mirror, "; bye");

    let mut script = "lftp -u \"$".to_owned();
    push_str(&mut script, username_env.as_str());
    push_str(&mut script, "\",\"$");
    push_str(&mut script, password_env.as_str());
    push_str(&mut script, "\" ");
    push_str(&mut script, shell_quote(host.as_str()).as_str());
    push_str(&mut script, " -e ");
    push_str(&mut script, shell_quote(mirror.as_str()).as_str());

    let mut args: Vec<String> = Vec::new();
    args.push("-c".to_owned());
    args.push(script);
    let mut required: Vec<String> = Vec::new();
    required.push(username_env);
    required.push(password_env);
    let mut display_args: Vec<String> = Vec::new();
    display_args.push("-e".to_owned());
    display_args.push(mirror);
    display_args.push(host);
    let r = ProviderCommand::new(ProviderKind::Ftp, "sh".to_owned(), args, "lftp".to_owned())
        .with_required_env(required)
        .with_display("lftp".to_owned(), display_args);
    assert(views(r.args@) =~= seq!["-c"@, ftp_script(*config, non_empty_spec(opt_view(config.ftp.host))->0, source@)]);
    assert(views(r.required_env@) =~= seq![ftp_username_env(*config), ftp_password_env(*config)]);
    assert(pair_views(r.env_mappings@) =~= Seq::<(Seq<char>, Seq<char>)>::empty());
    assert(r.display_words() =~= seq!["lftp"@, "-e"@, ftp_mirror(*config, source@), non_empty_spec(opt_view(config.ftp.host))->0]);
    Ok(r)
}

/// How to install a provider's tool.
pub open spec fn install_hint(p: ProviderKind) -> Seq<char> {
    match p {
        ProviderKind::Firebase => "Install Firebase CLI with: npm install -g firebase-tools"@,
        ProviderKind::AzureBlob => "Azure Storage Blob uses built-in SAS URL upload and does not require Azure CLI"@,
        ProviderKind::AzureSwa => "Install SWA CLI with: npm install -g @azure/static-web-apps-cli"@,
        ProviderKind::Ftp => "Install lftp with your system package manager"@,
    }
}

/// How to install a provider's tool.
pub fn provider_install_hint(provider: ProviderKind) -> (r: &'static str)
    ensures
        r@ == install_hint(provider),
{
    match provider {
        ProviderKind::Firebase => "Install Firebase CLI with: npm install -g firebase-tools",
        ProviderKind::AzureBlob => "Azure Storage Blob uses built-in SAS URL upload and does not require Azure CLI",
        ProviderKind::AzureSwa => "Install SWA CLI with: npm install -g @azure/static-web-apps-cli",
        ProviderKind::Ftp => "Install lftp with your system package manager",
    }
}

/// The message of an error.
pub open spec fn provider_error_message(e: ProviderError) -> Seq<char> {
    match e {
        ProviderError::BuiltInUpload => "provider Azure Storage Blob uses built-in SAS URL upload and does not require a provider CLI"@,
        ProviderError::MissingFtpHost => "ftp.host is required for provider Any Website (FTP)"@,
        ProviderError::MissingEnvironment { provider, names } => "missing required environment variable(s) for "@
            + provider_display_name(provider) + ": "@ + join(views(names@), ", "@),
        ProviderError::MissingMappedVariable { name } => "missing required environment variable: "@ + name@,
    }
}

impl ProviderError {
    /// The message shown to users.
    pub fn message(&self) -> (r: String)
        ensures
            r@ == provider_error_message(*self),
    {
        match self {
            ProviderError::BuiltInUpload => "provider Azure Storage Blob uses built-in SAS URL upload and does not require a provider CLI".to_owned(),
            ProviderError::MissingFtpHost => "ftp.host is required for provider Any Website (FTP)".to_owned(),
            ProviderError::MissingEnvironment { provider, names } => {
                let mut s = "missing required environment variable(s) for ".to_owned();
                push_str(&mut s, provider.display_name());
                push_str(&mut s, ": ");
                push_str(&mut s, join_strings(names, ", ").as_str());
                s
            },
            ProviderError::MissingMappedVariable { name } => {
                let mut s = "missing required environment variable: ".to_owned();
                push_str(&mut s, name.as_str());
                s
            },
        }
    }
}

/// Strings separated by `sep`.
pub fn join_strings(parts: &Vec<String>, sep: &str) -> (r: String)
    ensures
        r@ == join(views(parts@), sep@),
{
    let ghost q = views(parts@);
    let mut r = String::new();
    let mut i: usize = 0;
    while i < parts.len()
        invariant
            i <= parts@.len(),
            q == views(parts@),
            r@ == join(q.take(i as int), sep@),
        decreases parts@.len() - i,
    {
        assert(q.take(i + 1).drop_last() =~= q.take(i as int));
        if i > 0 {
            push_str(&mut r, sep);
        }
        push_str(&mut r, parts[i].as_str());
        i = i + 1;
        proof {
            if i == 1 {
                assert(q.take(1) =~= seq![q[0]]);
            }
        }
        assert(r@ =~= join(q.take(i as int), sep@));
    }
    assert(q.take(i as int) =~= q);
    r
}


// ---------------------------------------------------------------------
// Finding a provider's tool.
// ---------------------------------------------------------------------
/// The files any one of which, being a file, makes `program` available:
/// the program itself when it holds a `/`, else the program in each
/// directory of `PATH` (none without `PATH`).
pub open spec fn program_candidates_spec(program: Seq<char>, path_var: Option<Seq<char>>) -> Seq<
    Seq<char>,
> {
    if crate::text::find_char(program, '/') is Some {
        seq![program]
    } else {
        match path_var {
            Some(p) => crate::text::split_on(p, ':').map_values(
                |d: Seq<char>| crate::paths::join_path(d, program),
            ),
            None => Seq::<Seq<char>>::empty(),
        }
    }
}

/// The files to look for to know whether `program` is installed, given
/// the value of `PATH`.
pub fn program_candidates(program: &str, path_var: Option<&str>) -> (r: Vec<String>)
    ensures
        views(r@) == program_candidates_spec(program@, crate::config::opt_str_view(path_var)),
{
    let pv = crate::text::chars_of(program);
    let slash = crate::text::find_char_in(pv.as_slice(), 0, pv.len(), '/');
    proof {
        assert(pv@.subrange(0, pv@.len() as int) =~= pv@);
    }
    if slash.is_some() {
        let v = vec![program.to_owned()];
        assert(views(v@) =~= seq![program@]);
        return v;
    }
    match path_var {
        None => {
            let v: Vec<String> = Vec::new();
            assert(views(v@) =~= Seq::<Seq<char>>::empty());
            v
        },
        Some(p) => {
            let dirs = crate::json::split_str(p, ':');
            let ghost ds = views(dirs@);
            let mut out: Vec<String> = Vec::new();
            let mut i: usize = 0;
            while i < dirs.len()
                invariant
                    i <= dirs@.len(),
                    ds == views(dirs@),
                    ds == crate::text::split_on(p@, ':'),
                    views(out@) == ds.take(i as int).map_values(
                        |d: Seq<char>| crate::paths::join_path(d, program@),
                    ),
                decreases dirs@.len() - i,
            {
                let c = crate::paths::join(dirs[i].as_str(), program);
                proof {
                    lemma_views_push(out@, c);
                }
                out.push(c);
                assert(ds[i as int] == dirs@[i as int]@);
                assert(ds.take(i + 1).map_values(|d: Seq<char>| crate::paths::join_path(d, program@))
                    =~= ds.take(i as int).map_values(
                    |d: Seq<char>| crate::paths::join_path(d, program@),
                ).push(crate::paths::join_path(ds[i as int], program@)));
                i = i + 1;
            }
            assert(ds.take(dirs@.len() as int) =~= ds);
            out
        },
    }
}


/// An Azure Static Web App deployment names its app: when
/// `azure_swa.app_name` holds more than blanks, the `swa` arguments
/// contain `--app-name` followed by that name, trimmed, and they deploy the
/// given source directory.
pub proof fn lemma_swa_passes_app_name(c: NowConfig, source: Seq<char>, name: Seq<char>)
    requires
        c.azure_swa.app_name matches Some(n) && n@ == name,
        trim(name).len() > 0,
    ensures
        swa_args(c, source)[0] == "deploy"@,
        swa_args(c, source)[1] == source,
        exists|i: int|
            0 <= i && i + 1 < swa_args(c, source).len() && #[trigger] swa_args(c, source)[i]
                == "--app-name"@ && swa_args(c, source)[i + 1] == trim(name),
{
    let a = swa_args(c, source);
    assert(a[4] == "--app-name"@);
    assert(a[5] == trim(name));
}

/// Without an app name (none, or only blanks), `--app-name` is not passed.
pub proof fn lemma_swa_without_app_name(c: NowConfig, source: Seq<char>)
    requires
        match c.azure_swa.app_name {
            Some(n) => trim(n@).len() == 0,
            None => true,
        },
    ensures
        swa_args(c, source).len() == 4,
{
}


/// A Firebase deployment deploys hosting only: `deploy --only hosting`,
/// or `--only hosting:<site>` when a site is configured, and it names the
/// configured project (trimmed) after `--project` when there is one.
pub proof fn lemma_firebase_deploys_hosting(c: NowConfig)
    ensures
        firebase_args(c)[0] == "deploy"@,
        firebase_args(c)[1] == "--only"@,
        c.firebase.site matches Some(s) ==> firebase_args(c)[2] == "hosting:"@ + s@,
        c.firebase.site is None ==> firebase_args(c)[2] == "hosting"@,
        (c.firebase.project matches Some(p) && trim(p@).len() > 0) ==> (firebase_args(c).len() == 5
            && firebase_args(c)[3] == "--project"@ && firebase_args(c)[4] == trim(
            c.firebase.project->0@,
        )),
        (c.firebase.project matches Some(p) && trim(p@).len() > 0) || firebase_args(c).len() == 3,
{
}

/// An Azure Static Web App deployment uses the configured environment,
/// trimmed, or `production`; the deployment token is passed to the tool
/// as `SWA_CLI_DEPLOYMENT_TOKEN`, read from the configured variable or
/// from `SWA_CLI_DEPLOYMENT_TOKEN` itself.
pub proof fn lemma_swa_environment(c: NowConfig, source: Seq<char>)
    ensures
        swa_args(c, source)[2] == "--env"@,
        (c.azure_swa.environment matches Some(e) && trim(e@).len() > 0) ==> swa_args(c, source)[3]
            == trim(c.azure_swa.environment->0@),
        !(c.azure_swa.environment matches Some(e) && trim(e@).len() > 0) ==> swa_args(c, source)[3]
            == "production"@,
        (c.azure_swa.deployment_token_env matches Some(t) && trim(t@).len() > 0) ==> swa_token_env(c)
            == trim(c.azure_swa.deployment_token_env->0@),
        !(c.azure_swa.deployment_token_env matches Some(t) && trim(t@).len() > 0) ==> swa_token_env(c)
            == "SWA_CLI_DEPLOYMENT_TOKEN"@,
{
}

/// An FTP deployment mirrors into the configured remote directory,
/// trimmed, or `/`; it reads the user name and password from the
/// configured variables, or from `NOW_FTP_USERNAME` and
/// `NOW_FTP_PASSWORD`.
pub proof fn lemma_ftp_settings(c: NowConfig)
    ensures
        (c.ftp.remote_dir matches Some(d) && trim(d@).len() > 0) ==> ftp_remote_dir(c) == trim(
            c.ftp.remote_dir->0@,
        ),
        !(c.ftp.remote_dir matches Some(d) && trim(d@).len() > 0) ==> ftp_remote_dir(c) == "/"@,
        (c.ftp.username_env matches Some(u) && trim(u@).len() > 0) ==> ftp_username_env(c) == trim(
            c.ftp.username_env->0@,
        ),
        !(c.ftp.username_env matches Some(u) && trim(u@).len() > 0) ==> ftp_username_env(c)
            == "NOW_FTP_USERNAME"@,
        (c.ftp.password_env matches Some(p) && trim(p@).len() > 0) ==> ftp_password_env(c) == trim(
            c.ftp.password_env->0@,
        ),
        !(c.ftp.password_env matches Some(p) && trim(p@).len() > 0) ==> ftp_password_env(c)
            == "NOW_FTP_PASSWORD"@,
{
}

} // verus!
