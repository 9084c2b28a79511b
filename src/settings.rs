use vstd::prelude::*;
use crate::text::str_equals;

verus! {

broadcast use vstd::std_specs::vec::vec_clone_deep_view_proof;

/// How a job is designated: by its name, or by an alias.
#[derive(Debug, Clone, PartialEq, Eq)]
pub enum NameOrAlias {
    Name(String),
    Alias(String),
}

/// A reference to a job.
#[derive(Debug, Clone, PartialEq, Eq)]
pub struct ConcreteJobRef {
    pub name_or_alias: NameOrAlias,
}

/// What to do with a running job when a file changes.
#[derive(Debug, Clone, Copy, PartialEq, Eq, Structural)]
pub enum OnChangeStrategy {
    KillThenRestart,
    WaitThenRestart,
}

/// A job: the command that it launches.
#[derive(Debug, Clone, PartialEq, Eq)]
pub struct Job {
    pub command: Vec<String>,
}

/// A named job, as declared in a configuration.
#[derive(Debug, Clone, PartialEq, Eq)]
pub struct JobEntry {
    pub name: String,
    pub job: Job,
}

/// One configuration element: every field that it sets is `Some`.
#[derive(Debug, Clone, Default)]
pub struct Config {
    pub summary: Option<bool>,
    pub wrap: Option<bool>,
    pub reverse: Option<bool>,
    pub help_line: Option<bool>,
    pub additional_alias_args: Option<Vec<String>>,
    pub jobs: Vec<JobEntry>,
    pub default_job: Option<ConcreteJobRef>,
    pub show_changes_count: Option<bool>,
    pub on_change_strategy: Option<OnChangeStrategy>,
    pub ignored_lines: Option<Vec<String>>,
    pub grace_period_ms: Option<u64>,
    pub default_watch: Option<bool>,
    pub watch: Option<Vec<String>>,
    pub ignore: Vec<String>,
}

/// A configuration element read from a file, with the file's path.
#[derive(Debug, Clone)]
pub struct ConfigFile {
    pub path: String,
    pub config: Config,
}

/// The launch arguments that bear on the settings.
#[derive(Debug, Clone, Default)]
pub struct Args {
    pub job: Option<ConcreteJobRef>,
    pub summary: bool,
    pub no_summary: bool,
    pub wrap: bool,
    pub no_wrap: bool,
    pub reverse: bool,
    pub no_reverse: bool,
    pub help_line: bool,
    pub no_help_line: bool,
    pub no_default_features: bool,
    pub all_features: bool,
    pub features: Option<String>,
    pub additional_job_args: Vec<String>,
}

/// Why settings are refused.
#[derive(Debug, Clone, PartialEq, Eq)]
pub enum SettingsError {
    /// No job is defined.
    NoJob,
    /// The default job is named but no job has that name.
    DefaultJobNotFound(String),
}

/// The settings of the application: the defaults, overridden in order by
/// each configuration element and then by the launch arguments.
///
/// `jobs` is read as a map from name to job in which a later entry shadows
/// an earlier one of the same name.
#[derive(Debug, Clone)]
pub struct Settings {
    pub additional_alias_args: Option<Vec<String>>,
    pub additional_job_args: Vec<String>,
    pub all_features: bool,
    pub arg_job: Option<ConcreteJobRef>,
    /// Paths of the files that the settings were built from.
    pub config_files: Vec<String>,
    pub default_job: ConcreteJobRef,
    pub default_watch: bool,
    /// A comma separated list.
    pub features: Option<String>,
    pub grace_period_ms: u64,
    pub help_line: bool,
    pub ignore: Vec<String>,
    pub ignored_lines: Option<Vec<String>>,
    pub jobs: Vec<JobEntry>,
    pub no_default_features: bool,
    pub on_change_strategy: Option<OnChangeStrategy>,
    pub reverse: bool,
    pub show_changes_count: bool,
    pub summary: bool,
    pub watch: Vec<String>,
    pub wrap: bool,
}

/// The jobs of a list of entries, by name; a later entry wins.
pub open spec fn jobs_map(entries: Seq<JobEntry>) -> Map<Seq<char>, Seq<Seq<char>>>
    decreases entries.len(),
{
    if entries.len() == 0 {
        Map::empty()
    } else {
        jobs_map(entries.drop_last()).insert(
            entries.last().name@,
            entries.last().job.command.deep_view(),
        )
    }
}

/// The name of the default job, unless it is designated by an alias.
pub open spec fn default_job_name(r: ConcreteJobRef) -> Option<Seq<char>> {
    match r.name_or_alias {
        NameOrAlias::Name(n) => Some(n@),
        NameOrAlias::Alias(_) => None,
    }
}

pub open spec fn strings_view(v: Option<Vec<String>>) -> Option<Seq<Seq<char>>> {
    match v {
        Some(v) => Some(v.deep_view()),
        None => None,
    }
}

pub open spec fn string_view(v: Option<String>) -> Option<Seq<char>> {
    match v {
        Some(v) => Some(v@),
        None => None,
    }
}

/// The view of a job reference: the designation and whether it is a name.
pub open spec fn job_ref_view(r: ConcreteJobRef) -> (bool, Seq<char>) {
    match r.name_or_alias {
        NameOrAlias::Name(n) => (true, n@),
        NameOrAlias::Alias(a) => (false, a@),
    }
}

pub open spec fn opt_job_ref_view(r: Option<ConcreteJobRef>) -> Option<(bool, Seq<char>)> {
    match r {
        Some(r) => Some(job_ref_view(r)),
        None => None,
    }
}

pub open spec fn overridden<T>(current: T, by: Option<T>) -> T {
    match by {
        Some(v) => v,
        None => current,
    }
}

impl ConcreteJobRef {
    /// A reference to the job of that name.
    pub fn named(name: &str) -> (r: ConcreteJobRef)
        ensures
            job_ref_view(r) == (true, name@),
    {
        ConcreteJobRef { name_or_alias: NameOrAlias::Name(name.to_owned()) }
    }

    pub fn copy(&self) -> (r: ConcreteJobRef)
        ensures
            job_ref_view(r) == job_ref_view(*self),
    {
        match &self.name_or_alias {
            NameOrAlias::Name(n) => ConcreteJobRef { name_or_alias: NameOrAlias::Name(n.clone()) },
            NameOrAlias::Alias(a) => ConcreteJobRef {
                name_or_alias: NameOrAlias::Alias(a.clone()),
            },
        }
    }
}

impl JobEntry {
    pub fn copy(&self) -> (r: JobEntry)
        ensures
            r.name@ == self.name@,
            r.job.command.deep_view() == self.job.command.deep_view(),
    {
        JobEntry { name: self.name.clone(), job: Job { command: self.job.command.clone() } }
    }
}

/// `by` when it is set, else `current`.
fn pick<T: Copy>(current: T, by: Option<T>) -> (r: T)
    ensures
        r == overridden(current, by),
{
    match by {
        Some(v) => v,
        None => current,
    }
}

/// The value after two flags are applied in turn: each one that is set
/// imposes its value.
fn switched(current: bool, first: bool, first_value: bool, second: bool, second_value: bool) -> (r:
    bool)
    ensures
        r == if second {
            second_value
        } else if first {
            first_value
        } else {
            current
        },
{
    let mut v = current;
    if first {
        v = first_value;
    }
    if second {
        v = second_value;
    }
    v
}

fn copy_opt_strings(v: &Option<Vec<String>>) -> (r: Option<Vec<String>>)
    ensures
        strings_view(r) == strings_view(*v),
{
    match v {
        Some(v) => Some(v.clone()),
        None => None,
    }
}

fn copy_opt_string(v: &Option<String>) -> (r: Option<String>)
    ensures
        string_view(r) == string_view(*v),
{
    match v {
        Some(v) => Some(v.clone()),
        None => None,
    }
}


/// The jobs of the configuration files, in order.
pub open spec fn files_jobs(files: Seq<ConfigFile>) -> Seq<JobEntry>
    decreases files.len(),
{
    if files.len() == 0 {
        Seq::empty()
    } else {
        files_jobs(files.drop_last()) + files.last().config.jobs@
    }
}

/// The default job once the configuration files are applied after `start`:
/// the last one that a file designates.
pub open spec fn default_job_after(start: (bool, Seq<char>), files: Seq<ConfigFile>) -> (
    bool,
    Seq<char>,
)
    decreases files.len(),
{
    if files.len() == 0 {
        start
    } else {
        match files.last().config.default_job {
            Some(j) => job_ref_view(j),
            None => default_job_after(start, files.drop_last()),
        }
    }
}

/// The default job designated by the base configuration, else `check`.
pub open spec fn base_default_job(base: Config) -> (bool, Seq<char>) {
    match base.default_job {
        Some(j) => job_ref_view(j),
        None => (true, "check"@),
    }
}

/// The boolean settings that a configuration element may set.
pub enum Flag {
    Summary,
    Wrap,
    Reverse,
    HelpLine,
    ShowChangesCount,
    DefaultWatch,
}

/// What a configuration element says of a flag.
pub open spec fn flag_of(c: Config, f: Flag) -> Option<bool> {
    match f {
        Flag::Summary => c.summary,
        Flag::Wrap => c.wrap,
        Flag::Reverse => c.reverse,
        Flag::HelpLine => c.help_line,
        Flag::ShowChangesCount => c.show_changes_count,
        Flag::DefaultWatch => c.default_watch,
    }
}

/// A flag once the configuration files are applied after `start`: the last
/// value that a file gives it.
pub open spec fn layered_flag(start: bool, files: Seq<ConfigFile>, f: Flag) -> bool
    decreases files.len(),
{
    if files.len() == 0 {
        start
    } else {
        overridden(layered_flag(start, files.drop_last(), f), flag_of(files.last().config, f))
    }
}

/// The grace period once the configuration files are applied after `start`.
pub open spec fn layered_grace_period(start: u64, files: Seq<ConfigFile>) -> u64
    decreases files.len(),
{
    if files.len() == 0 {
        start
    } else {
        overridden(
            layered_grace_period(start, files.drop_last()),
            files.last().config.grace_period_ms,
        )
    }
}

/// The flags of the settings.
pub open spec fn flag_value(s: Settings, f: Flag) -> bool {
    match f {
        Flag::Summary => s.summary,
        Flag::Wrap => s.wrap,
        Flag::Reverse => s.reverse,
        Flag::HelpLine => s.help_line,
        Flag::ShowChangesCount => s.show_changes_count,
        Flag::DefaultWatch => s.default_watch,
    }
}

/// The default value of each flag.
pub open spec fn flag_default(f: Flag) -> bool {
    match f {
        Flag::Summary => false,
        Flag::Wrap => true,
        Flag::Reverse => false,
        Flag::HelpLine => true,
        Flag::ShowChangesCount => false,
        Flag::DefaultWatch => true,
    }
}

/// A flag of the settings read from `base` and `files`, before the launch
/// arguments.
pub open spec fn configured_flag(base: Config, files: Seq<ConfigFile>, f: Flag) -> bool {
    layered_flag(overridden(flag_default(f), flag_of(base, f)), files, f)
}

impl Default for Settings {
    fn default() -> (r: Settings)
        ensures
            r.additional_alias_args is None,
            r.additional_job_args@.len() == 0,
            !r.all_features,
            r.arg_job is None,
            r.config_files@.len() == 0,
            job_ref_view(r.default_job) == (true, "check"@),
            r.default_watch,
            r.features is None,
            r.grace_period_ms == 5,
            r.help_line,
            r.ignore@.len() == 0,
            r.ignored_lines is None,
            r.jobs@.len() == 0,
            !r.no_default_features,
            r.on_change_strategy is None,
            !r.reverse,
            !r.show_changes_count,
            !r.summary,
            r.watch@.len() == 0,
            r.wrap,
    {
        Settings {
            additional_alias_args: None,
            additional_job_args: Vec::new(),
            all_features: false,
            arg_job: None,
            config_files: Vec::new(),
            default_job: ConcreteJobRef::named("check"),
            default_watch: true,
            features: None,
            grace_period_ms: 5,
            help_line: true,
            ignore: Vec::new(),
            ignored_lines: None,
            jobs: Vec::new(),
            no_default_features: false,
            on_change_strategy: None,
            reverse: false,
            show_changes_count: false,
            summary: false,
            watch: Vec::new(),
            wrap: true,
        }
    }
}

impl Settings {
    /// Records the path of a file that the settings were built from.
    pub fn register_config_file(&mut self, path: String)
        ensures
            final(self).config_files@ == old(self).config_files@.push(path),
            *final(self) == (Settings { config_files: final(self).config_files, ..*old(self) }),
    {
        self.config_files.push(path);
    }

    #[verifier::rlimit(40)]
    /// Applies one configuration element: what it sets overrides the
    /// defaults and the elements applied before; its jobs are added, and
    /// its ignore patterns appended.
    pub fn apply_config(&mut self, config: &Config)
        ensures
            final(self).summary == overridden(old(self).summary, config.summary),
            final(self).wrap == overridden(old(self).wrap, config.wrap),
            final(self).reverse == overridden(old(self).reverse, config.reverse),
            final(self).help_line == overridden(old(self).help_line, config.help_line),
            strings_view(final(self).additional_alias_args) == if config.additional_alias_args is Some {
                strings_view(config.additional_alias_args)
            } else {
                strings_view(old(self).additional_alias_args)
            },
            jobs_map(final(self).jobs@) == jobs_map(old(self).jobs@ + config.jobs@),
            job_ref_view(final(self).default_job) == match config.default_job {
                Some(j) => job_ref_view(j),
                None => job_ref_view(old(self).default_job),
            },
            final(self).show_changes_count == overridden(
                old(self).show_changes_count,
                config.show_changes_count,
            ),
            final(self).on_change_strategy == if config.on_change_strategy is Some {
                config.on_change_strategy
            } else {
                old(self).on_change_strategy
            },
            strings_view(final(self).ignored_lines) == if config.ignored_lines is Some {
                strings_view(config.ignored_lines)
            } else {
                strings_view(old(self).ignored_lines)
            },
            final(self).grace_period_ms == overridden(old(self).grace_period_ms, config.grace_period_ms),
            final(self).default_watch == overridden(old(self).default_watch, config.default_watch),
            final(self).watch.deep_view() == match config.watch {
                Some(w) => w.deep_view(),
                None => old(self).watch.deep_view(),
            },
            final(self).ignore.deep_view() == old(self).ignore.deep_view() + config.ignore.deep_view(),
            final(self).config_files@ == old(self).config_files@,
            final(self).arg_job == old(self).arg_job,
            final(self).additional_job_args == old(self).additional_job_args,
            final(self).features == old(self).features,
            final(self).no_default_features == old(self).no_default_features,
            final(self).all_features == old(self).all_features,
    {
        self.summary = pick(self.summary, config.summary);
        self.wrap = pick(self.wrap, config.wrap);
        self.reverse = pick(self.reverse, config.reverse);
        self.help_line = pick(self.help_line, config.help_line);
        if config.additional_alias_args.is_some() {
            self.additional_alias_args = copy_opt_strings(&config.additional_alias_args);
        }
        add_jobs(&mut self.jobs, &config.jobs);
        if let Some(default_job) = &config.default_job {
            self.default_job = default_job.copy();
        }
        self.show_changes_count = pick(self.show_changes_count, config.show_changes_count);
        if config.on_change_strategy.is_some() {
            self.on_change_strategy = config.on_change_strategy;
        }
        if config.ignored_lines.is_some() {
            self.ignored_lines = copy_opt_strings(&config.ignored_lines);
        }
        self.grace_period_ms = pick(self.grace_period_ms, config.grace_period_ms);
        self.default_watch = pick(self.default_watch, config.default_watch);
        if let Some(watch) = &config.watch {
            self.watch = watch.clone();
        }
        append_strings(&mut self.ignore, &config.ignore);
    }
    /// Applies the launch arguments, which override every configuration element.
    pub fn apply_args(&mut self, args: &Args)
        ensures
            opt_job_ref_view(final(self).arg_job) == if args.job is Some {
                opt_job_ref_view(args.job)
            } else {
                opt_job_ref_view(old(self).arg_job)
            },
            final(self).summary == if args.summary {
                true
            } else if args.no_summary {
                false
            } else {
                old(self).summary
            },
            final(self).wrap == if args.wrap {
                true
            } else if args.no_wrap {
                false
            } else {
                old(self).wrap
            },
            final(self).reverse == if args.reverse {
                true
            } else if args.no_reverse {
                false
            } else {
                old(self).reverse
            },
            final(self).help_line == if args.no_help_line {
                false
            } else if args.help_line {
                true
            } else {
                old(self).help_line
            },
            final(self).no_default_features == (old(self).no_default_features
                || args.no_default_features),
            final(self).all_features == (old(self).all_features || args.all_features),
            string_view(final(self).features) == if args.features is Some {
                string_view(args.features)
            } else {
                string_view(old(self).features)
            },
            final(self).additional_job_args.deep_view() == args.additional_job_args.deep_view(),
            final(self).jobs@ == old(self).jobs@,
            job_ref_view(final(self).default_job) == job_ref_view(old(self).default_job),
            final(self).config_files@ == old(self).config_files@,
            final(self).show_changes_count == old(self).show_changes_count,
            final(self).default_watch == old(self).default_watch,
            final(self).grace_period_ms == old(self).grace_period_ms,
            final(self).additional_alias_args == old(self).additional_alias_args,
            final(self).ignore == old(self).ignore,
            final(self).ignored_lines == old(self).ignored_lines,
            final(self).watch == old(self).watch,
            final(self).on_change_strategy == old(self).on_change_strategy,
    {
        if let Some(job) = &args.job {
            self.arg_job = Some(job.copy());
        }
        self.summary = switched(self.summary, args.no_summary, false, args.summary, true);
        self.wrap = switched(self.wrap, args.no_wrap, false, args.wrap, true);
        self.reverse = switched(self.reverse, args.no_reverse, false, args.reverse, true);
        self.help_line = switched(self.help_line, args.help_line, true, args.no_help_line, false);
        self.no_default_features = self.no_default_features || args.no_default_features;
        self.all_features = self.all_features || args.all_features;
        if args.features.is_some() {
            self.features = copy_opt_string(&args.features);
        }
        self.additional_job_args = args.additional_job_args.clone();
    }

    /// Checks that there is a job and that the default job, when it is
    /// designated by name, is one of them.
    pub fn check(&self) -> (r: Result<(), SettingsError>)
        ensures
            match r {
                Ok(()) => {
                    &&& jobs_map(self.jobs@).dom().len() > 0
                    &&& default_job_name(self.default_job) matches Some(n) ==> jobs_map(
                        self.jobs@,
                    ).contains_key(n)
                },
                Err(SettingsError::NoJob) => jobs_map(self.jobs@).dom().len() == 0,
                Err(SettingsError::DefaultJobNotFound(n)) => {
                    &&& jobs_map(self.jobs@).dom().len() > 0
                    &&& default_job_name(self.default_job) == Some(n@)
                    &&& !jobs_map(self.jobs@).contains_key(n@)
                },
            },
    {
        proof {
            lemma_jobs_map_empty(self.jobs@);
        }
        if self.jobs.len() == 0 {
            return Err(SettingsError::NoJob);
        }
        if let NameOrAlias::Name(name) = &self.default_job.name_or_alias {
            if !has_job(&self.jobs, name) {
                return Err(SettingsError::DefaultJobNotFound(name.clone()));
            }
        }
        Ok(())
    }
    /// Builds the settings: the defaults, overridden by the base configuration,
    /// then by each configuration file in order (whose path is recorded), then
    /// by the launch arguments; the result is checked.
    pub fn read(args: &Args, base: &Config, files: &Vec<ConfigFile>) -> (r: Result<
        Settings,
        SettingsError,
    >)
        ensures
            ({
                let jobs = jobs_map(base.jobs@ + files_jobs(files@));
                let default_job = default_job_after(base_default_job(*base), files@);
                let default_ok = !default_job.0 || jobs.contains_key(default_job.1);
                match r {
                    Ok(s) => {
                        &&& jobs.dom().len() > 0
                        &&& default_ok
                        &&& jobs_map(s.jobs@) == jobs
                        &&& job_ref_view(s.default_job) == default_job
                        &&& s.config_files@.len() == files@.len()
                        &&& forall|i: int|
                            0 <= i < files@.len() ==> (#[trigger] s.config_files@[i])@
                                == files@[i].path@
                        &&& s.additional_job_args.deep_view() == args.additional_job_args.deep_view()
                        &&& s.summary == if args.summary {
                            true
                        } else if args.no_summary {
                            false
                        } else {
                            configured_flag(*base, files@, Flag::Summary)
                        }
                        &&& s.wrap == if args.wrap {
                            true
                        } else if args.no_wrap {
                            false
                        } else {
                            configured_flag(*base, files@, Flag::Wrap)
                        }
                        &&& s.reverse == if args.reverse {
                            true
                        } else if args.no_reverse {
                            false
                        } else {
                            configured_flag(*base, files@, Flag::Reverse)
                        }
                        &&& s.help_line == if args.no_help_line {
                            false
                        } else if args.help_line {
                            true
                        } else {
                            configured_flag(*base, files@, Flag::HelpLine)
                        }
                        &&& s.show_changes_count == configured_flag(
                            *base,
                            files@,
                            Flag::ShowChangesCount,
                        )
                        &&& s.default_watch == configured_flag(*base, files@, Flag::DefaultWatch)
                        &&& s.grace_period_ms == layered_grace_period(
                            overridden(5, base.grace_period_ms),
                            files@,
                        )
                        &&& s.no_default_features == args.no_default_features
                        &&& s.all_features == args.all_features
                        &&& string_view(s.features) == string_view(args.features)
                        &&& opt_job_ref_view(s.arg_job) == opt_job_ref_view(args.job)
                    },
                    Err(SettingsError::NoJob) => jobs.dom().len() == 0,
                    Err(SettingsError::DefaultJobNotFound(n)) => {
                        &&& jobs.dom().len() > 0
                        &&& default_job == (true, n@)
                        &&& !jobs.contains_key(n@)
                    },
                }
            }),
    {
        let mut settings = Settings::default();
        settings.apply_config(base);
        proof {
            assert(base.jobs@ =~= Seq::<JobEntry>::empty() + base.jobs@);
            assert(files@.subrange(0, 0) =~= Seq::<ConfigFile>::empty());
            assert(base.jobs@ + files_jobs(Seq::<ConfigFile>::empty()) =~= base.jobs@);
            reveal_strlit("check");
            assert forall|f: Flag| flag_value(settings, f) == #[trigger] configured_flag(
                *base,
                Seq::<ConfigFile>::empty(),
                f,
            ) by {}
        }
        let mut i: usize = 0;
        while i < files.len()
            invariant
                i <= files@.len(),
                jobs_map(settings.jobs@) == jobs_map(
                    base.jobs@ + files_jobs(files@.subrange(0, i as int)),
                ),
                job_ref_view(settings.default_job) == default_job_after(
                    base_default_job(*base),
                    files@.subrange(0, i as int),
                ),
                settings.config_files@.len() == i,
                forall|f: Flag|
                    flag_value(settings, f) == #[trigger] configured_flag(
                        *base,
                        files@.subrange(0, i as int),
                        f,
                    ),
                settings.grace_period_ms == layered_grace_period(
                    overridden(5, base.grace_period_ms),
                    files@.subrange(0, i as int),
                ),
                !settings.no_default_features,
                !settings.all_features,
                settings.features is None,
                settings.arg_job is None,
                forall|j: int|
                    0 <= j < i ==> (#[trigger] settings.config_files@[j])@ == files@[j].path@,
            decreases files@.len() - i,
        {
            let file = &files[i];
            let ghost jobs_before = settings.jobs@;
            settings.register_config_file(file.path.clone());
            settings.apply_config(&file.config);
            proof {
                lemma_jobs_map_append(
                    jobs_before,
                    base.jobs@ + files_jobs(files@.subrange(0, i as int)),
                    file.config.jobs@,
                );
                let done = files@.subrange(0, i as int + 1);
                assert(done.drop_last() =~= files@.subrange(0, i as int));
                assert(done.last() == files@[i as int]);
                assert forall|f: Flag| flag_value(settings, f) == #[trigger] configured_flag(
                    *base,
                    done,
                    f,
                ) by {
                    assert(configured_flag(*base, done, f) == overridden(
                        configured_flag(*base, files@.subrange(0, i as int), f),
                        flag_of(file.config, f),
                    ));
                }
                assert(base.jobs@ + files_jobs(done) =~= base.jobs@ + files_jobs(
                    files@.subrange(0, i as int),
                ) + file.config.jobs@);
                assert(settings.config_files@[i as int] == files@[i as int].path);
            }
            i += 1;
        }
        assert(files@.subrange(0, i as int) =~= files@);
        assert(flag_value(settings, Flag::Summary) == configured_flag(*base, files@, Flag::Summary));
        assert(flag_value(settings, Flag::Wrap) == configured_flag(*base, files@, Flag::Wrap));
        assert(flag_value(settings, Flag::Reverse) == configured_flag(*base, files@, Flag::Reverse));
        assert(flag_value(settings, Flag::HelpLine) == configured_flag(
            *base,
            files@,
            Flag::HelpLine,
        ));
        assert(flag_value(settings, Flag::ShowChangesCount) == configured_flag(
            *base,
            files@,
            Flag::ShowChangesCount,
        ));
        assert(flag_value(settings, Flag::DefaultWatch) == configured_flag(
            *base,
            files@,
            Flag::DefaultWatch,
        ));
        settings.apply_args(args);
        match settings.check() {
            Ok(()) => Ok(settings),
            Err(e) => Err(e),
        }
    }
}

fn add_jobs(jobs: &mut Vec<JobEntry>, more: &Vec<JobEntry>)
    ensures
        jobs_map(final(jobs)@) == jobs_map(old(jobs)@ + more@),
{
    let ghost jobs_before = jobs@;
    let mut i: usize = 0;
    assert(jobs_before + more@.subrange(0, 0) =~= jobs_before);
    while i < more.len()
        invariant
            i <= more@.len(),
            jobs@.len() == jobs_before.len() + i,
            jobs_map(jobs@) == jobs_map(jobs_before + more@.subrange(0, i as int)),
        decreases more@.len() - i,
    {
        let entry = more[i].copy();
        let ghost before = jobs@;
        jobs.push(entry);
        proof {
            let all = jobs_before + more@.subrange(0, i as int + 1);
            assert(all.drop_last() =~= jobs_before + more@.subrange(0, i as int));
            assert(jobs@.drop_last() =~= before);
            lemma_jobs_map_same_views(jobs@, all);
        }
        i += 1;
    }
    assert(more@.subrange(0, i as int) =~= more@);
}

fn append_strings(v: &mut Vec<String>, more: &Vec<String>)
    ensures
        final(v).deep_view() == old(v).deep_view() + more.deep_view(),
{
    let ghost before = v@;
    let mut j: usize = 0;
    assert(before + more@.subrange(0, 0) =~= before);
    while j < more.len()
        invariant
            j <= more@.len(),
            v@ == before + more@.subrange(0, j as int),
        decreases more@.len() - j,
    {
        v.push(more[j].clone());
        assert(v@ =~= before + more@.subrange(0, j as int + 1));
        j += 1;
    }
    assert(more@.subrange(0, j as int) =~= more@);
    assert(v.deep_view() =~= old(v).deep_view() + more.deep_view());
}

fn has_job(jobs: &Vec<JobEntry>, name: &String) -> (r: bool)
    ensures
        r == jobs_map(jobs@).contains_key(name@),
{
    proof {
        lemma_jobs_map_keys(jobs@, name@);
    }
    let mut i: usize = 0;
    while i < jobs.len()
        invariant
            i <= jobs@.len(),
            forall|j: int| 0 <= j < i ==> (#[trigger] jobs@[j]).name@ != name@,
        decreases jobs@.len() - i,
    {
        if str_equals(jobs[i].name.as_str(), name.as_str()) {
            proof {
                lemma_jobs_map_keys(jobs@, name@);
                assert(jobs@[i as int].name@ == name@);
            }
            return true;
        }
        i += 1;
    }
    false
}

proof fn lemma_jobs_map_keys(entries: Seq<JobEntry>, name: Seq<char>)
    ensures
        jobs_map(entries).contains_key(name) <==> exists|i: int|
            0 <= i < entries.len() && (#[trigger] entries[i]).name@ == name,
    decreases entries.len(),
{
    if entries.len() > 0 {
        let rest = entries.drop_last();
        lemma_jobs_map_keys(rest, name);
        if exists|i: int| 0 <= i < rest.len() && (#[trigger] rest[i]).name@ == name {
            let i = choose|i: int| 0 <= i < rest.len() && (#[trigger] rest[i]).name@ == name;
            assert(entries[i] == rest[i]);
        }
        if exists|i: int| 0 <= i < entries.len() && (#[trigger] entries[i]).name@ == name {
            let i = choose|i: int| 0 <= i < entries.len() && (#[trigger] entries[i]).name@ == name;
            if i < entries.len() - 1 {
                assert(rest[i] == entries[i]);
            }
        }
    }
}

proof fn lemma_jobs_map_empty(entries: Seq<JobEntry>)
    ensures
        jobs_map(entries).dom().finite(),
        jobs_map(entries).dom().len() == 0 <==> entries.len() == 0,
    decreases entries.len(),
{
    if entries.len() > 0 {
        lemma_jobs_map_empty(entries.drop_last());
        assert(jobs_map(entries).contains_key(entries.last().name@));
    }
}

proof fn lemma_jobs_map_append(a: Seq<JobEntry>, b: Seq<JobEntry>, c: Seq<JobEntry>)
    requires
        jobs_map(a) == jobs_map(b),
    ensures
        jobs_map(a + c) == jobs_map(b + c),
    decreases c.len(),
{
    if c.len() == 0 {
        assert(a + c =~= a);
        assert(b + c =~= b);
    } else {
        lemma_jobs_map_append(a, b, c.drop_last());
        assert((a + c).drop_last() =~= a + c.drop_last());
        assert((b + c).drop_last() =~= b + c.drop_last());
    }
}

proof fn lemma_jobs_map_same_views(a: Seq<JobEntry>, b: Seq<JobEntry>)
    requires
        a.len() == b.len(),
        a.len() > 0,
        jobs_map(a.drop_last()) == jobs_map(b.drop_last()),
        a.last().name@ == b.last().name@,
        a.last().job.command.deep_view() == b.last().job.command.deep_view(),
    ensures
        jobs_map(a) == jobs_map(b),
{
}

} // verus!
