//! What a supervised program is made of and how it is to be restarted.

use crate::names::{ascending, is_name_less};
use crate::template::{is_plain_template, plain_template};
use vstd::prelude::*;
use vstd::string::StringExecFns;

verus! {

/// A short-lived helper that must exit with code 0 before the process it
/// belongs to is launched.
#[derive(Debug, PartialEq, Eq)]
pub struct PreCommandConfig {
    pub command: String,
    pub args: Option<Vec<String>>,
    /// The helper has failed if it runs for longer than this many seconds.
    pub timeout_secs: u32,
}

/// A side-car process whose stdin receives what the program writes.
#[derive(Debug, PartialEq, Eq)]
pub struct LoggerConfig {
    pub command: String,
    pub args: Option<Vec<String>>,
    pub pre_command: Option<PreCommandConfig>,
    /// The logger counts as started once it has run for this many seconds.
    pub start_wait_secs: u32,
}

/// One program of the configuration.
#[derive(Debug, PartialEq, Eq)]
pub struct ProgramConfig {
    pub command: String,
    pub args: Option<Vec<String>>,
    pub pre_command: Option<PreCommandConfig>,
    /// The program counts as started once it has run for this many seconds.
    pub start_wait_secs: u32,
    /// The name of the logger to run beside the program, if any.
    pub logger: Option<String>,
    /// Whether the program is started without being asked.
    pub autostart: bool,
    /// Whether the program is started again after it exits unexpectedly.
    pub autorestart: bool,
    /// Seconds to wait after an unexpected exit before the next attempt.
    pub backoff_delay_secs: u32,
    /// How many times in a row a start is attempted again before giving up.
    pub num_restart_attempts: u32,
    /// Seconds between SIGTERM and SIGKILL when the program is terminated.
    pub sigkill_delay_secs: u32,
}

/// A program together with the logger that its configuration names.
#[derive(Debug, PartialEq, Eq)]
pub struct RenderedProgramConfig {
    pub program: ProgramConfig,
    pub logger: Option<LoggerConfig>,
}

/// The characters of each argument.
pub open spec fn args_view(args: Option<Vec<String>>) -> Option<Seq<Seq<char>>> {
    match args {
        Some(list) => Some(Seq::new(list@.len(), |i: int| list@[i]@)),
        None => None,
    }
}

/// A copy of an argument list.
pub fn clone_args(args: &Option<Vec<String>>) -> (r: Option<Vec<String>>)
    ensures
        args_view(r) == args_view(*args),
{
    match args {
        None => None,
        Some(list) => {
            let mut copy: Vec<String> = Vec::new();
            let mut i: usize = 0;
            while i < list.len()
                invariant
                    i <= list.len(),
                    copy@.len() == i,
                    forall|k: int| 0 <= k < i ==> copy@[k]@ == list@[k]@,
                decreases list.len() - i,
            {
                copy.push(list[i].clone());
                i = i + 1;
            }
            assert(Seq::new(copy@.len(), |k: int| copy@[k]@) =~= Seq::new(
                list@.len(),
                |k: int| list@[k]@,
            ));
            Some(copy)
        },
    }
}

pub fn default_pre_command_timeout_secs() -> (r: u32)
    ensures
        r == 1,
{
    1u32
}

pub fn default_start_wait_secs() -> (r: u32)
    ensures
        r == 1,
{
    1u32
}

pub fn default_autostart() -> (r: bool)
    ensures
        r,
{
    true
}

pub fn default_autorestart() -> (r: bool)
    ensures
        r,
{
    true
}

pub fn default_backoff_delay_secs() -> (r: u32)
    ensures
        r == 1,
{
    1u32
}

pub fn default_num_restart_attempts() -> (r: u32)
    ensures
        r == 4,
{
    4u32
}

pub fn default_sigkill_delay_secs() -> (r: u32)
    ensures
        r == 10,
{
    10u32
}

impl PreCommandConfig {
    /// Both describe the same helper.
    pub open spec fn same_as(&self, other: &Self) -> bool {
        &&& self.command@ == other.command@
        &&& args_view(self.args) == args_view(other.args)
        &&& self.timeout_secs == other.timeout_secs
    }
}

impl Clone for PreCommandConfig {
    fn clone(&self) -> (r: Self)
        ensures
            r.same_as(self),
    {
        PreCommandConfig {
            command: self.command.clone(),
            args: clone_args(&self.args),
            timeout_secs: self.timeout_secs,
        }
    }
}

impl Default for PreCommandConfig {
    fn default() -> (r: Self)
        ensures
            r.command@.len() == 0,
            r.args is None,
            r.timeout_secs == 1,
    {
        PreCommandConfig {
            command: String::new(),
            args: None,
            timeout_secs: default_pre_command_timeout_secs(),
        }
    }
}

/// Both are absent, or both describe the same helper.
pub open spec fn same_pre_command(a: Option<PreCommandConfig>, b: Option<PreCommandConfig>) -> bool {
    match (a, b) {
        (Some(x), Some(y)) => x.same_as(&y),
        (None, None) => true,
        _ => false,
    }
}

/// A copy of an optional helper.
pub fn clone_pre_command(pre_command: &Option<PreCommandConfig>) -> (r: Option<PreCommandConfig>)
    ensures
        same_pre_command(r, *pre_command),
{
    match pre_command {
        Some(config) => Some(config.clone()),
        None => None,
    }
}

impl LoggerConfig {
    /// Both describe the same logger.
    pub open spec fn same_as(&self, other: &Self) -> bool {
        &&& self.command@ == other.command@
        &&& args_view(self.args) == args_view(other.args)
        &&& same_pre_command(self.pre_command, other.pre_command)
        &&& self.start_wait_secs == other.start_wait_secs
    }
}

impl Clone for LoggerConfig {
    fn clone(&self) -> (r: Self)
        ensures
            r.same_as(self),
    {
        LoggerConfig {
            command: self.command.clone(),
            args: clone_args(&self.args),
            pre_command: clone_pre_command(&self.pre_command),
            start_wait_secs: self.start_wait_secs,
        }
    }
}

impl Default for LoggerConfig {
    fn default() -> (r: Self)
        ensures
            r.command@.len() == 0,
            r.args is None,
            r.pre_command is None,
            r.start_wait_secs == 1,
    {
        LoggerConfig {
            command: String::new(),
            args: None,
            pre_command: None,
            start_wait_secs: default_start_wait_secs(),
        }
    }
}

/// The characters of an optional name.
pub open spec fn name_view(name: Option<String>) -> Option<Seq<char>> {
    match name {
        Some(text) => Some(text@),
        None => None,
    }
}

impl ProgramConfig {
    /// Both describe the same program.
    pub open spec fn same_as(&self, other: &Self) -> bool {
        &&& self.command@ == other.command@
        &&& args_view(self.args) == args_view(other.args)
        &&& same_pre_command(self.pre_command, other.pre_command)
        &&& self.start_wait_secs == other.start_wait_secs
        &&& name_view(self.logger) == name_view(other.logger)
        &&& self.autostart == other.autostart
        &&& self.autorestart == other.autorestart
        &&& self.backoff_delay_secs == other.backoff_delay_secs
        &&& self.num_restart_attempts == other.num_restart_attempts
        &&& self.sigkill_delay_secs == other.sigkill_delay_secs
    }

    /// The command that is launched.
    pub fn command(&self) -> (r: String)
        ensures
            r@ == self.command@,
    {
        self.command.clone()
    }

    /// The arguments handed to the command.
    pub fn args(&self) -> (r: Option<Vec<String>>)
        ensures
            args_view(r) == args_view(self.args),
    {
        clone_args(&self.args)
    }

    pub fn autostart(&self) -> (r: bool)
        ensures
            r == self.autostart,
    {
        self.autostart
    }

    pub fn autorestart(&self) -> (r: bool)
        ensures
            r == self.autorestart,
    {
        self.autorestart
    }

    /// Seconds to wait after an unexpected exit before the next attempt.
    pub fn backoff_delay(&self) -> (r: u32)
        ensures
            r == self.backoff_delay_secs,
    {
        self.backoff_delay_secs
    }

    pub fn num_restart_attempts(&self) -> (r: u32)
        ensures
            r == self.num_restart_attempts,
    {
        self.num_restart_attempts
    }

    /// Seconds between SIGTERM and SIGKILL.
    pub fn sigkill_delay(&self) -> (r: u32)
        ensures
            r == self.sigkill_delay_secs,
    {
        self.sigkill_delay_secs
    }
}

impl Clone for ProgramConfig {
    fn clone(&self) -> (r: Self)
        ensures
            r.same_as(self),
    {
        let logger = match &self.logger {
            Some(name) => Some(name.clone()),
            None => None,
        };
        ProgramConfig {
            command: self.command.clone(),
            args: clone_args(&self.args),
            pre_command: clone_pre_command(&self.pre_command),
            start_wait_secs: self.start_wait_secs,
            logger,
            autostart: self.autostart,
            autorestart: self.autorestart,
            backoff_delay_secs: self.backoff_delay_secs,
            num_restart_attempts: self.num_restart_attempts,
            sigkill_delay_secs: self.sigkill_delay_secs,
        }
    }
}

impl Default for ProgramConfig {
    fn default() -> (r: Self)
        ensures
            r.command@.len() == 0,
            r.args is None,
            r.pre_command is None,
            r.start_wait_secs == 1,
            r.logger is None,
            r.autostart,
            r.autorestart,
            r.backoff_delay_secs == 1,
            r.num_restart_attempts == 4,
            r.sigkill_delay_secs == 10,
    {
        ProgramConfig {
            command: String::new(),
            args: None,
            pre_command: None,
            start_wait_secs: default_start_wait_secs(),
            logger: None,
            autostart: default_autostart(),
            autorestart: default_autorestart(),
            backoff_delay_secs: default_backoff_delay_secs(),
            num_restart_attempts: default_num_restart_attempts(),
            sigkill_delay_secs: default_sigkill_delay_secs(),
        }
    }
}

/// Both are absent, or both describe the same logger.
pub open spec fn same_logger(a: Option<LoggerConfig>, b: Option<LoggerConfig>) -> bool {
    match (a, b) {
        (Some(x), Some(y)) => x.same_as(&y),
        (None, None) => true,
        _ => false,
    }
}

impl RenderedProgramConfig {
    /// Both describe the same program and logger.
    pub open spec fn same_as(&self, other: &Self) -> bool {
        &&& self.program.same_as(&other.program)
        &&& same_logger(self.logger, other.logger)
    }

    pub fn autostart(&self) -> (r: bool)
        ensures
            r == self.program.autostart,
    {
        self.program.autostart
    }

    pub fn autorestart(&self) -> (r: bool)
        ensures
            r == self.program.autorestart,
    {
        self.program.autorestart
    }

    pub fn backoff_delay_secs(&self) -> (r: u32)
        ensures
            r == self.program.backoff_delay_secs,
    {
        self.program.backoff_delay_secs
    }

    pub fn num_restart_attempts(&self) -> (r: u32)
        ensures
            r == self.program.num_restart_attempts,
    {
        self.program.num_restart_attempts
    }

    pub fn sigkill_delay_secs(&self) -> (r: u32)
        ensures
            r == self.program.sigkill_delay_secs,
    {
        self.program.sigkill_delay_secs
    }
}

impl Clone for RenderedProgramConfig {
    fn clone(&self) -> (r: Self)
        ensures
            r.same_as(self),
    {
        let logger = match &self.logger {
            Some(config) => Some(config.clone()),
            None => None,
        };
        RenderedProgramConfig { program: self.program.clone(), logger }
    }
}

impl Default for RenderedProgramConfig {
    fn default() -> (r: Self)
        ensures
            r.program.command@.len() == 0,
            r.program.autostart,
            r.program.autorestart,
            r.program.backoff_delay_secs == 1,
            r.program.num_restart_attempts == 4,
            r.program.sigkill_delay_secs == 10,
            r.program.start_wait_secs == 1,
            r.program.pre_command is None,
            r.program.logger is None,
            r.logger is None,
    {
        RenderedProgramConfig { program: ProgramConfig::default(), logger: None }
    }
}

/// Named tables of variables: each table has a name and holds values by
/// name.
pub type VarsConfig = Vec<(String, Vec<(String, String)>)>;

/// A configuration as it is written: the variables, the programs by name
/// and the loggers by name. Commands and arguments may hold templates.
#[derive(Debug, PartialEq, Eq)]
pub struct Config {
    pub vars: VarsConfig,
    /// The programs of the configuration, in the order in which they are
    /// supervised.
    pub programs: Vec<(String, ProgramConfig)>,
    pub loggers: Vec<(String, LoggerConfig)>,
}

#[verifier::external_type_specification]
#[verifier::external_body]
pub struct ExTeraError(tera::Error);

/// Why a template was not expanded.
#[derive(Debug)]
pub enum TemplateError {
    /// The template is not plain (see [`crate::template`]), and was not
    /// handed to the template engine.
    NotPlain { template: String },
    /// The template engine could not expand the template.
    Engine { error: tera::Error },
}

/// Why a configuration cannot be used.
#[derive(Debug)]
pub enum ConfigError {
    /// A template was not expanded.
    Template { error: TemplateError },
    /// A program names a logger that the configuration does not have.
    LoggerNotFound { logger_name: String },
}

/// What templates are expanded with: the environment, the tables of
/// variables and, for the strings of a logger, the program it belongs to.
#[derive(Debug, PartialEq, Eq)]
pub struct VarsRenderer {
    /// The tables of variables, known to templates by the name of the table.
    pub vars: VarsConfig,
    /// What templates know as `chayd.ctx`, once it has been set.
    pub chayd_obj: Option<Vec<(String, String)>>,
    /// What templates know as `env`.
    pub env_obj: Vec<(String, String)>,
}

/// What is handed to the template engine beside the template: the tables
/// that templates know by name, and the objects, each of which holds tables
/// by name. No table holds two values of one name.
#[derive(Debug, PartialEq, Eq)]
pub struct ContextEntries {
    pub tables: Vec<(String, Vec<(String, String)>)>,
    pub objects: Vec<(String, Vec<(String, Vec<(String, String)>)>)>,
}

/// The names and values of a table, as characters.
pub type TableView = Seq<(Seq<char>, Seq<char>)>;

/// Tables by name, as characters.
pub type TablesView = Seq<(Seq<char>, Seq<(Seq<char>, Seq<char>)>)>;

/// Objects by name, each with its tables by name, as characters.
pub type ObjectsView = Seq<(Seq<char>, Seq<(Seq<char>, Seq<(Seq<char>, Seq<char>)>)>)>;

// What the template engine expands a plain template to when it knows the
// tables and the objects, inserted in their order, by their names; `None`
// where it cannot expand the template, as when a variable is not known.
pub uninterp spec fn tera_expansion(
    tables: Seq<(Seq<char>, Seq<(Seq<char>, Seq<char>)>)>,
    objects: Seq<(Seq<char>, Seq<(Seq<char>, Seq<(Seq<char>, Seq<char>)>)>)>,
    template: Seq<char>,
) -> Option<Seq<char>>;

/// `tera::Context::insert` for each table and then for each object, in the
/// order in which they come, and `tera::Tera::render_str` on a fresh
/// `tera::Tera` with that context. An entry that is inserted under the name
/// of an earlier one takes its place.
///
/// Only a plain template is handed over, since the engine unwinds on some
/// others. A plain template holds variables and nothing else, so what it
/// expands to depends on the context and the template alone: the result is
/// the expansion that [`tera_expansion`] names, or an error where there is
/// none.
#[verifier::external_body]
fn tera_render_str(entries: &ContextEntries, config_str: &str) -> (r: Result<String, tera::Error>)
    requires
        plain_template(config_str@),
    ensures
        match r {
            Ok(expanded) => tera_expansion(
                tables_view(entries.tables@),
                objects_view(entries.objects@),
                config_str@,
            ) == Some(expanded@),
            Err(_) => tera_expansion(
                tables_view(entries.tables@),
                objects_view(entries.objects@),
                config_str@,
            ) is None,
        },
{
    let mut context = tera::Context::new();
    for (name, table) in &entries.tables {
        context.insert(name.as_str(), &table.iter().cloned().collect::<std::collections::BTreeMap<String, String>>());
    }
    for (name, object) in &entries.objects {
        context.insert(name.as_str(), &object.iter().map(|(key, table)| (key.clone(), table.iter().cloned().collect::<std::collections::BTreeMap<String, String>>())).collect::<std::collections::BTreeMap<String, _>>());
    }
    tera::Tera::default().render_str(config_str, &context)
}

/// The characters of the names and values of a table.
pub open spec fn table_view(table: Seq<(String, String)>) -> Seq<(Seq<char>, Seq<char>)> {
    Seq::new(table.len(), |i: int| (table[i].0@, table[i].1@))
}

/// The characters of a list of strings.
pub open spec fn strings_view(strings: Seq<String>) -> Seq<Seq<char>> {
    Seq::new(strings.len(), |i: int| strings[i]@)
}

/// The characters of tables by name.
pub open spec fn tables_view(tables: Seq<(String, Vec<(String, String)>)>) -> Seq<
    (Seq<char>, Seq<(Seq<char>, Seq<char>)>),
> {
    Seq::new(tables.len(), |i: int| (tables[i].0@, table_view(tables[i].1@)))
}

/// The characters of objects by name.
pub open spec fn objects_view(
    objects: Seq<(String, Vec<(String, Vec<(String, String)>)>)>,
) -> Seq<(Seq<char>, Seq<(Seq<char>, Seq<(Seq<char>, Seq<char>)>)>)> {
    Seq::new(objects.len(), |i: int| (objects[i].0@, tables_view(objects[i].1@)))
}

/// A copy of a table.
pub fn clone_table(table: &Vec<(String, String)>) -> (r: Vec<(String, String)>)
    ensures
        table_view(r@) == table_view(table@),
{
    let mut copy: Vec<(String, String)> = Vec::new();
    let mut i: usize = 0;
    while i < table.len()
        invariant
            i <= table@.len(),
            copy@.len() == i,
            forall|k: int|
                0 <= k < i ==> (#[trigger] copy@[k]).0@ == table@[k].0@ && copy@[k].1@
                    == table@[k].1@,
        decreases table@.len() - i,
    {
        let entry = &table[i];
        copy.push((entry.0.clone(), entry.1.clone()));
        i = i + 1;
    }
    assert(table_view(copy@) =~= table_view(table@));
    copy
}

/// Whether the table names `name` at position `from` or later.
pub open spec fn named_from(table: Seq<(Seq<char>, Seq<char>)>, name: Seq<char>, from: int) -> bool {
    exists|j: int| from <= j < table.len() && (#[trigger] table[j]).0 == name
}

/// The table without the values that a later value of the same name
/// replaces: of two values of one name the later counts. The values that
/// stay keep their order.
pub open spec fn latest(table: Seq<(Seq<char>, Seq<char>)>) -> Seq<(Seq<char>, Seq<char>)>
    decreases table.len(),
{
    if table.len() == 0 {
        Seq::empty()
    } else if named_from(table, table[0].0, 1) {
        latest(table.drop_first())
    } else {
        seq![table[0]].add(latest(table.drop_first()))
    }
}

/// In the table of the latest values every value is one of the table, and
/// no name occurs twice: handing it on as a map from names to values loses
/// nothing.
pub proof fn lemma_latest_names_are_distinct(table: Seq<(Seq<char>, Seq<char>)>)
    ensures
        forall|k: int|
            0 <= k < latest(table).len() ==> exists|m: int|
                0 <= m < table.len() && table[m] == #[trigger] latest(table)[k],
        forall|i: int, j: int|
            0 <= i < j < latest(table).len() ==> (#[trigger] latest(table)[i]).0 != (
            #[trigger] latest(table)[j]).0,
    decreases table.len(),
{
    if table.len() > 0 {
        let rest = table.drop_first();
        lemma_latest_names_are_distinct(rest);
        let kept = latest(rest);
        assert forall|k: int| 0 <= k < kept.len() implies exists|m: int|
            1 <= m < table.len() && table[m] == #[trigger] kept[k] by {
            let m = choose|m: int| 0 <= m < rest.len() && rest[m] == kept[k];
            assert(table[m + 1] == rest[m]);
        }
        if !named_from(table, table[0].0, 1) {
            let all = latest(table);
            assert(all =~= seq![table[0]].add(kept));
            assert forall|k: int| 0 <= k < all.len() implies exists|m: int|
                0 <= m < table.len() && table[m] == #[trigger] all[k] by {
                if k > 0 {
                    assert(all[k] == kept[k - 1]);
                    let m = choose|m: int| 1 <= m < table.len() && table[m] == kept[k - 1];
                    assert(table[m] == all[k]);
                } else {
                    assert(table[0] == all[0]);
                }
            }
            assert forall|i: int, j: int| 0 <= i < j < all.len() implies (#[trigger] all[i]).0 != (
            #[trigger] all[j]).0 by {
                assert(all[j] == kept[j - 1]);
                if i == 0 {
                    let m = choose|m: int| 1 <= m < table.len() && table[m] == kept[j - 1];
                    assert(table[m].0 == all[j].0);
                } else {
                    assert(all[i] == kept[i - 1]);
                }
            }
        } else {
            assert forall|k: int| 0 <= k < kept.len() implies exists|m: int|
                0 <= m < table.len() && table[m] == #[trigger] kept[k] by {
                let m = choose|m: int| 1 <= m < table.len() && table[m] == kept[k];
            }
        }
    }
}

/// The table with, for each name, the value that counts: the latest.
pub fn latest_values(table: &Vec<(String, String)>) -> (r: Vec<(String, String)>)
    ensures
        table_view(r@) == latest(table_view(table@)),
{
    let ghost whole = table_view(table@);
    let n = table.len();
    let mut kept: Vec<(String, String)> = Vec::new();
    let mut i: usize = 0;
    assert(whole.skip(0) =~= whole);
    assert(table_view(kept@) =~= Seq::empty());
    while i < n
        invariant
            n == table@.len(),
            i <= n,
            whole == table_view(table@),
            table_view(kept@).add(latest(whole.skip(i as int))) == latest(whole),
        decreases n - i,
    {
        let ghost rest = whole.skip(i as int);
        let ghost before = table_view(kept@);
        let mut j: usize = i + 1;
        let mut replaced = false;
        while j < n
            invariant
                n == table@.len(),
                i < n,
                i < j <= n,
                whole == table_view(table@),
                replaced <==> exists|k: int| i < k < j && (#[trigger] whole[k]).0 == whole[i as int].0,
            decreases n - j,
        {
            if table[j].0 == table[i].0 {
                replaced = true;
                assert(whole[j as int].0 == whole[i as int].0);
            }
            j = j + 1;
        }
        proof {
            assert(rest.drop_first() =~= whole.skip(i + 1));
            assert(rest[0] == whole[i as int]);
            if replaced {
                let k = choose|k: int| i < k < n && (#[trigger] whole[k]).0 == whole[i as int].0;
                assert(rest[k - i] == whole[k]);
                assert(named_from(rest, rest[0].0, 1));
            } else {
                if named_from(rest, rest[0].0, 1) {
                    let m = choose|m: int| 1 <= m < rest.len() && (#[trigger] rest[m]).0 == rest[0].0;
                    assert(whole[i + m] == rest[m]);
                    assert(false);
                }
            }
        }
        if !replaced {
            let entry = &table[i];
            kept.push((entry.0.clone(), entry.1.clone()));
            assert(table_view(kept@) =~= before.add(seq![whole[i as int]]));
            assert(before.add(seq![whole[i as int]]).add(latest(whole.skip(i + 1))) =~= before.add(
                seq![whole[i as int]].add(latest(whole.skip(i + 1))),
            ));
        }
        i = i + 1;
    }
    assert(table_view(kept@).add(Seq::empty()) =~= table_view(kept@));
    kept
}

/// Every template of the list is plain.
pub open spec fn all_plain(templates: Seq<Seq<char>>) -> bool {
    forall|i: int| 0 <= i < templates.len() ==> plain_template(#[trigger] templates[i])
}

/// Every value of the tables is a plain template.
pub open spec fn plain_values(vars: TablesView) -> bool {
    forall|i: int, j: int|
        0 <= i < vars.len() && 0 <= j < vars[i].1.len() ==> plain_template(
            (#[trigger] vars[i].1[j]).1,
        )
}

/// The engine can expand every value of the tables.
pub open spec fn values_expand(tables: TablesView, objects: ObjectsView, vars: TablesView) -> bool {
    forall|i: int, j: int|
        0 <= i < vars.len() && 0 <= j < vars[i].1.len() ==> tera_expansion(
            tables,
            objects,
            (#[trigger] vars[i].1[j]).1,
        ) is Some
}

/// The tables with each value expanded by the engine. The tables and the
/// names in them stay as they are.
pub open spec fn expanded_values(tables: TablesView, objects: ObjectsView, vars: TablesView) -> TablesView {
    Seq::new(
        vars.len(),
        |i: int|
            (
                vars[i].0,
                Seq::new(
                    vars[i].1.len(),
                    |j: int|
                        (vars[i].1[j].0, tera_expansion(tables, objects, vars[i].1[j].1).unwrap()),
                ),
            ),
    )
}

/// What comes of expanding the values of the tables: if one is not plain,
/// none is handed to the engine; else the tables with the expansions, if
/// the engine can expand every value.
pub open spec fn spec_render_vars(tables: TablesView, objects: ObjectsView, vars: TablesView) -> Result<
    TablesView,
    TemplateErrorView,
> {
    if !plain_values(vars) {
        Err(TemplateErrorView::NotPlain)
    } else if values_expand(tables, objects, vars) {
        Ok(expanded_values(tables, objects, vars))
    } else {
        Err(TemplateErrorView::Engine)
    }
}

/// The tables that templates know by name: `env` first, then each table of
/// variables under its own name, each with the latest value of every name.
pub open spec fn context_tables(env: TableView, vars: TablesView) -> TablesView {
    seq![("env"@, latest(env))].add(Seq::new(vars.len(), |i: int| (vars[i].0, latest(vars[i].1))))
}

/// The objects that templates know by name: `chayd` with the table `ctx`
/// in it, once that has been set.
pub open spec fn context_objects(ctx: Option<TableView>) -> ObjectsView {
    match ctx {
        Some(table) => seq![("chayd"@, seq![("ctx"@, latest(table))])],
        None => Seq::empty(),
    }
}

/// What the templates of a logger know as `chayd.ctx`: the program that
/// the logger belongs to.
pub open spec fn program_ctx(program_name: Seq<char>) -> TableView {
    seq![("program"@, program_name)]
}

/// Why a template was not expanded, without the details.
pub enum TemplateErrorView {
    NotPlain,
    Engine,
}

pub open spec fn template_error_view(error: TemplateError) -> TemplateErrorView {
    match error {
        TemplateError::NotPlain { .. } => TemplateErrorView::NotPlain,
        TemplateError::Engine { .. } => TemplateErrorView::Engine,
    }
}

/// The engine can expand every template of the list.
pub open spec fn all_expand(tables: TablesView, objects: ObjectsView, templates: Seq<Seq<char>>) -> bool {
    forall|i: int|
        0 <= i < templates.len() ==> tera_expansion(tables, objects, #[trigger] templates[i])
            is Some
}

/// What the engine expands the templates of the list to, one for one.
pub open spec fn expansions(tables: TablesView, objects: ObjectsView, templates: Seq<Seq<char>>) -> Seq<
    Seq<char>,
> {
    Seq::new(templates.len(), |i: int| tera_expansion(tables, objects, templates[i]).unwrap())
}

/// What comes of expanding a list of templates: if one is not plain, none
/// is handed to the engine; else the expansions, if the engine can expand
/// every one.
pub open spec fn spec_render_all(
    tables: TablesView,
    objects: ObjectsView,
    templates: Seq<Seq<char>>,
) -> Result<Seq<Seq<char>>, TemplateErrorView> {
    if !all_plain(templates) {
        Err(TemplateErrorView::NotPlain)
    } else if all_expand(tables, objects, templates) {
        Ok(expansions(tables, objects, templates))
    } else {
        Err(TemplateErrorView::Engine)
    }
}

/// The strings or the error that came are those that were to come.
pub open spec fn strings_agree(
    got: Result<Vec<String>, TemplateError>,
    expected: Result<Seq<Seq<char>>, TemplateErrorView>,
) -> bool {
    match expected {
        Ok(strings) => got matches Ok(list) && strings_view(list@) == strings,
        Err(error) => got matches Err(other) && template_error_view(other) == error,
    }
}

/// The templates of an argument list, in order.
pub open spec fn spec_args_templates(args: Option<Vec<String>>) -> Seq<Seq<char>> {
    match args {
        Some(list) => strings_view(list@),
        None => Seq::empty(),
    }
}

/// The templates of a helper, if there is one: see
/// [`PreCommandConfig::spec_templates`].
pub open spec fn spec_pre_command_templates(pre_command: Option<PreCommandConfig>) -> Seq<
    Seq<char>,
> {
    match pre_command {
        Some(config) => config.spec_templates(),
        None => Seq::empty(),
    }
}

/// The argument list in which the strings from position `from` on stand in
/// place of the arguments.
pub open spec fn args_rendered_as(
    after: Option<Vec<String>>,
    before: Option<Vec<String>>,
    strings: Seq<Seq<char>>,
    from: int,
) -> bool {
    match (after, before) {
        (Some(x), Some(y)) => strings_view(x@) == strings.subrange(from, from + y@.len()),
        (None, None) => true,
        _ => false,
    }
}

/// The helper in which the strings stand in place of its templates, if
/// there is a helper.
pub open spec fn pre_command_rendered_as(
    after: Option<PreCommandConfig>,
    before: Option<PreCommandConfig>,
    strings: Seq<Seq<char>>,
) -> bool {
    match (after, before) {
        (Some(x), Some(y)) => x.is_rendered_as(y, strings),
        (None, None) => strings.len() == 0,
        _ => false,
    }
}

/// How many templates a command with these arguments and this helper has.
pub proof fn lemma_templates_len(
    command: Seq<char>,
    args: Option<Vec<String>>,
    pre_command: Option<PreCommandConfig>,
)
    ensures
        spec_args_templates(args).len() == (match args {
            Some(list) => list@.len(),
            None => 0,
        }),
        spec_pre_command_templates(pre_command).len() == (match pre_command {
            Some(config) => 1 + spec_args_templates(config.args).len(),
            None => 0,
        }),
        seq![command].add(spec_args_templates(args)).len() == 1 + spec_args_templates(args).len(),
        seq![command].add(spec_args_templates(args)).add(
            spec_pre_command_templates(pre_command),
        ).len() == 1 + spec_args_templates(args).len() + spec_pre_command_templates(
            pre_command,
        ).len(),
{
}

/// The first template of the list that is not plain, if there is one.
pub fn first_not_plain(templates: &Vec<String>) -> (r: Option<String>)
    ensures
        r is None <==> all_plain(strings_view(templates@)),
        r matches Some(template) ==> !plain_template(template@),
{
    let mut i: usize = 0;
    while i < templates.len()
        invariant
            i <= templates@.len(),
            forall|k: int| 0 <= k < i ==> plain_template((#[trigger] templates@[k])@),
        decreases templates@.len() - i,
    {
        if !is_plain_template(templates[i].as_str()) {
            assert(strings_view(templates@)[i as int] == templates@[i as int]@);
            return Some(templates[i].clone());
        }
        i = i + 1;
    }
    assert(all_plain(strings_view(templates@)));
    None
}

/// A copy of the strings from position `from` up to position `to`.
pub fn take_strings(strings: &Vec<String>, from: usize, to: usize) -> (r: Vec<String>)
    requires
        from <= to <= strings@.len(),
    ensures
        strings_view(r@) == strings_view(strings@).subrange(from as int, to as int),
{
    let mut copy: Vec<String> = Vec::new();
    let mut i: usize = from;
    while i < to
        invariant
            from <= i <= to <= strings@.len(),
            copy@.len() == i - from,
            forall|k: int| 0 <= k < copy@.len() ==> (#[trigger] copy@[k])@ == strings@[from + k]@,
        decreases to - i,
    {
        copy.push(strings[i].clone());
        i = i + 1;
    }
    assert(strings_view(copy@) =~= strings_view(strings@).subrange(from as int, to as int));
    copy
}

/// Adds copies of `more` to the end of `list`.
pub fn push_strings(list: &mut Vec<String>, more: &Vec<String>)
    ensures
        strings_view(final(list)@) == strings_view(old(list)@).add(strings_view(more@)),
{
    let ghost before = strings_view(list@);
    let mut i: usize = 0;
    while i < more.len()
        invariant
            i <= more@.len(),
            list@.len() == before.len() + i,
            forall|k: int| 0 <= k < before.len() ==> (#[trigger] list@[k])@ == before[k],
            forall|k: int|
                before.len() <= k < before.len() + i ==> (#[trigger] list@[k])@ == more@[k
                    - before.len()]@,
        decreases more@.len() - i,
    {
        list.push(more[i].clone());
        i = i + 1;
    }
    assert(strings_view(list@) =~= before.add(strings_view(more@)));
}

impl PreCommandConfig {
    /// The templates of the helper: its command and then its arguments.
    pub open spec fn spec_templates(self) -> Seq<Seq<char>> {
        seq![self.command@].add(spec_args_templates(self.args))
    }

    /// Whether `self` is `before` with the strings in place of its
    /// templates, one for one and in order. All else is as in `before`.
    pub open spec fn is_rendered_as(self, before: PreCommandConfig, strings: Seq<Seq<char>>) -> bool {
        &&& strings.len() == before.spec_templates().len()
        &&& self.command@ == strings[0]
        &&& args_rendered_as(self.args, before.args, strings, 1)
        &&& self.timeout_secs == before.timeout_secs
    }

    /// The templates of the helper, in the order in which they are handed
    /// to the template engine.
    pub fn templates(&self) -> (r: Vec<String>)
        ensures
            strings_view(r@) == self.spec_templates(),
    {
        let mut list: Vec<String> = Vec::new();
        list.push(self.command.clone());
        assert(strings_view(list@) =~= seq![self.command@]);
        if let Some(args) = &self.args {
            push_strings(&mut list, args);
        } else {
            assert(strings_view(list@).add(Seq::empty()) =~= strings_view(list@));
        }
        list
    }

    /// The helper with `rendered` in place of its templates: what the
    /// templates were expanded to, one for each and in their order.
    pub fn with_rendered(&self, rendered: &Vec<String>) -> (r: Self)
        requires
            rendered@.len() == self.spec_templates().len(),
        ensures
            r.is_rendered_as(*self, strings_view(rendered@)),
    {
        proof {
            lemma_templates_len(self.command@, self.args, None);
        }
        let total = rendered.len();
        assert(total == 1 + spec_args_templates(self.args).len());
        let command = rendered[0].clone();
        let args = match &self.args {
            Some(list) => {
                let own = take_strings(rendered, 1, 1 + list.len());
                assert(strings_view(own@).len() == own@.len());
                Some(own)
            },
            None => None,
        };
        PreCommandConfig { command, args, timeout_secs: self.timeout_secs }
    }
}

/// The templates of an optional helper, in order.
pub fn pre_command_templates(pre_command: &Option<PreCommandConfig>) -> (r: Vec<String>)
    ensures
        strings_view(r@) == spec_pre_command_templates(*pre_command),
{
    match pre_command {
        Some(config) => config.templates(),
        None => {
            let list: Vec<String> = Vec::new();
            assert(strings_view(list@) =~= Seq::empty());
            list
        },
    }
}

/// The optional helper with the strings of `rendered` from position `from`
/// on in place of its templates.
pub fn pre_command_with_rendered(
    pre_command: &Option<PreCommandConfig>,
    rendered: &Vec<String>,
    from: usize,
) -> (r: Option<PreCommandConfig>)
    requires
        from <= rendered@.len(),
        rendered@.len() - from == spec_pre_command_templates(*pre_command).len(),
    ensures
        pre_command_rendered_as(
            r,
            *pre_command,
            strings_view(rendered@).subrange(from as int, rendered@.len() as int),
        ),
{
    match pre_command {
        Some(config) => {
            let own = take_strings(rendered, from, rendered.len());
            assert(strings_view(own@).len() == own@.len());
            Some(config.with_rendered(&own))
        },
        None => None,
    }
}

impl LoggerConfig {
    /// The templates of the logger: its command, then its arguments, then
    /// the templates of its pre-command.
    pub open spec fn spec_templates(self) -> Seq<Seq<char>> {
        seq![self.command@].add(spec_args_templates(self.args)).add(
            spec_pre_command_templates(self.pre_command),
        )
    }

    /// Whether `self` is `before` with the strings in place of its
    /// templates, one for one and in order. All else is as in `before`.
    pub open spec fn is_rendered_as(self, before: LoggerConfig, strings: Seq<Seq<char>>) -> bool {
        let args_end = 1 + spec_args_templates(before.args).len();
        &&& strings.len() == before.spec_templates().len()
        &&& self.command@ == strings[0]
        &&& args_rendered_as(self.args, before.args, strings, 1)
        &&& pre_command_rendered_as(
            self.pre_command,
            before.pre_command,
            strings.subrange(args_end as int, strings.len() as int),
        )
        &&& self.start_wait_secs == before.start_wait_secs
    }

    /// The templates of the logger, in the order in which they are handed
    /// to the template engine.
    pub fn templates(&self) -> (r: Vec<String>)
        ensures
            strings_view(r@) == self.spec_templates(),
    {
        let mut list: Vec<String> = Vec::new();
        list.push(self.command.clone());
        assert(strings_view(list@) =~= seq![self.command@]);
        if let Some(args) = &self.args {
            push_strings(&mut list, args);
        } else {
            assert(strings_view(list@).add(Seq::empty()) =~= strings_view(list@));
        }
        let more = pre_command_templates(&self.pre_command);
        push_strings(&mut list, &more);
        list
    }

    /// The logger with `rendered` in place of its templates: what the
    /// templates were expanded to, one for each and in their order.
    pub fn with_rendered(&self, rendered: &Vec<String>) -> (r: Self)
        requires
            rendered@.len() == self.spec_templates().len(),
        ensures
            r.is_rendered_as(*self, strings_view(rendered@)),
    {
        proof {
            lemma_templates_len(self.command@, self.args, self.pre_command);
        }
        let total = rendered.len();
        assert(total == 1 + spec_args_templates(self.args).len() + spec_pre_command_templates(
            self.pre_command,
        ).len());
        let command = rendered[0].clone();
        let mut args_end: usize = 1;
        let args = match &self.args {
            Some(list) => {
                args_end = 1 + list.len();
                let own = take_strings(rendered, 1, args_end);
                assert(strings_view(own@).len() == own@.len());
                Some(own)
            },
            None => None,
        };
        let pre_command = pre_command_with_rendered(&self.pre_command, rendered, args_end);
        LoggerConfig { command, args, pre_command, start_wait_secs: self.start_wait_secs }
    }
}

impl ProgramConfig {
    /// The templates of the program: its command, then its arguments, then
    /// the templates of its pre-command.
    pub open spec fn spec_templates(self) -> Seq<Seq<char>> {
        seq![self.command@].add(spec_args_templates(self.args)).add(
            spec_pre_command_templates(self.pre_command),
        )
    }

    /// Whether `self` is `before` with the strings in place of its
    /// templates, one for one and in order. The name of the logger and the
    /// restart policy are as in `before`.
    pub open spec fn is_rendered_as(self, before: ProgramConfig, strings: Seq<Seq<char>>) -> bool {
        let args_end = 1 + spec_args_templates(before.args).len();
        &&& strings.len() == before.spec_templates().len()
        &&& self.command@ == strings[0]
        &&& args_rendered_as(self.args, before.args, strings, 1)
        &&& pre_command_rendered_as(
            self.pre_command,
            before.pre_command,
            strings.subrange(args_end as int, strings.len() as int),
        )
        &&& self.start_wait_secs == before.start_wait_secs
        &&& self.logger == before.logger
        &&& self.autostart == before.autostart
        &&& self.autorestart == before.autorestart
        &&& self.backoff_delay_secs == before.backoff_delay_secs
        &&& self.num_restart_attempts == before.num_restart_attempts
        &&& self.sigkill_delay_secs == before.sigkill_delay_secs
    }

    /// The templates of the program, in the order in which they are handed
    /// to the template engine.
    pub fn templates(&self) -> (r: Vec<String>)
        ensures
            strings_view(r@) == self.spec_templates(),
    {
        let mut list: Vec<String> = Vec::new();
        list.push(self.command.clone());
        assert(strings_view(list@) =~= seq![self.command@]);
        if let Some(args) = &self.args {
            push_strings(&mut list, args);
        } else {
            assert(strings_view(list@).add(Seq::empty()) =~= strings_view(list@));
        }
        let more = pre_command_templates(&self.pre_command);
        push_strings(&mut list, &more);
        list
    }

    /// The program with `rendered` in place of its templates: what the
    /// templates were expanded to, one for each and in their order.
    pub fn with_rendered(&self, rendered: &Vec<String>) -> (r: Self)
        requires
            rendered@.len() == self.spec_templates().len(),
        ensures
            r.is_rendered_as(*self, strings_view(rendered@)),
    {
        proof {
            lemma_templates_len(self.command@, self.args, self.pre_command);
        }
        let total = rendered.len();
        assert(total == 1 + spec_args_templates(self.args).len() + spec_pre_command_templates(
            self.pre_command,
        ).len());
        let command = rendered[0].clone();
        let mut args_end: usize = 1;
        let args = match &self.args {
            Some(list) => {
                args_end = 1 + list.len();
                let own = take_strings(rendered, 1, args_end);
                assert(strings_view(own@).len() == own@.len());
                Some(own)
            },
            None => None,
        };
        let pre_command = pre_command_with_rendered(&self.pre_command, rendered, args_end);
        let logger = match &self.logger {
            Some(name) => Some(name.clone()),
            None => None,
        };
        ProgramConfig {
            command,
            args,
            pre_command,
            start_wait_secs: self.start_wait_secs,
            logger,
            autostart: self.autostart,
            autorestart: self.autorestart,
            backoff_delay_secs: self.backoff_delay_secs,
            num_restart_attempts: self.num_restart_attempts,
            sigkill_delay_secs: self.sigkill_delay_secs,
        }
    }
}

/// The position of the first logger of that name, if there is one.
pub open spec fn spec_find_logger(loggers: Seq<(String, LoggerConfig)>, logger_name: Seq<char>) -> Option<
    int,
> {
    if exists|i: int| 0 <= i < loggers.len() && (#[trigger] loggers[i]).0@ == logger_name {
        Some(
            choose|i: int|
                0 <= i < loggers.len() && (#[trigger] loggers[i]).0@ == logger_name && forall|j: int|
                    0 <= j < i ==> (#[trigger] loggers[j]).0@ != logger_name,
        )
    } else {
        None
    }
}

/// The first logger with the name `logger_name`, if the configuration has
/// one.
pub fn find_logger<'a>(loggers: &'a Vec<(String, LoggerConfig)>, logger_name: &String) -> (r:
    Option<&'a LoggerConfig>)
    ensures
        match r {
            Some(logger) => exists|i: int|
                0 <= i < loggers@.len() && (#[trigger] loggers@[i]).0@ == logger_name@
                    && *logger == loggers@[i].1 && forall|j: int|
                    0 <= j < i ==> (#[trigger] loggers@[j]).0@ != logger_name@,
            None => forall|i: int|
                0 <= i < loggers@.len() ==> (#[trigger] loggers@[i]).0@ != logger_name@,
        },
        match r {
            Some(logger) => spec_find_logger(loggers@, logger_name@) matches Some(i) && 0 <= i
                < loggers@.len() && *logger == loggers@[i].1,
            None => spec_find_logger(loggers@, logger_name@) is None,
        },
{
    let mut i: usize = 0;
    while i < loggers.len()
        invariant
            i <= loggers@.len(),
            forall|j: int| 0 <= j < i ==> (#[trigger] loggers@[j]).0@ != logger_name@,
        decreases loggers@.len() - i,
    {
        let entry = &loggers[i];
        if entry.0 == *logger_name {
            return Some(&entry.1);
        }
        i = i + 1;
    }
    None
}

impl ConfigError {
    /// The words for a logger that was not found; the words for a template
    /// that could not be expanded are those of the template engine.
    pub open spec fn spec_logger_not_found_message(logger_name: Seq<char>) -> Seq<char> {
        "Logger not found: "@ + logger_name
    }

    /// The words for a logger that the configuration does not have.
    pub fn logger_not_found_message(logger_name: &str) -> (r: String)
        ensures
            r@ == Self::spec_logger_not_found_message(logger_name@),
    {
        let mut message = String::from_str("Logger not found: ");
        message.append(logger_name);
        message
    }
}

/// The tables or the error that came are those that were to come.
pub open spec fn tables_agree(
    got: Result<VarsConfig, TemplateError>,
    expected: Result<TablesView, TemplateErrorView>,
) -> bool {
    match expected {
        Ok(tables) => got matches Ok(list) && tables_view(list@) == tables,
        Err(error) => got matches Err(other) && template_error_view(other) == error,
    }
}

/// The first value of the tables that is not a plain template, if there is
/// one.
pub fn first_not_plain_value(vars_config: &VarsConfig) -> (r: Option<String>)
    ensures
        r is None <==> plain_values(tables_view(vars_config@)),
        r matches Some(template) ==> !plain_template(template@),
{
    let ghost vars = tables_view(vars_config@);
    let mut a: usize = 0;
    while a < vars_config.len()
        invariant
            a <= vars_config@.len(),
            vars == tables_view(vars_config@),
            forall|i: int, j: int|
                0 <= i < a && 0 <= j < vars[i].1.len() ==> plain_template(
                    (#[trigger] vars[i].1[j]).1,
                ),
        decreases vars_config@.len() - a,
    {
        let table = &vars_config[a];
        let mut b: usize = 0;
        while b < table.1.len()
            invariant
                a < vars_config@.len(),
                vars == tables_view(vars_config@),
                *table == vars_config@[a as int],
                b <= table.1@.len(),
                forall|j: int| 0 <= j < b ==> plain_template((#[trigger] vars[a as int].1[j]).1),
            decreases table.1@.len() - b,
        {
            let entry = &table.1[b];
            assert(vars[a as int].1[b as int].1 == entry.1@);
            if !is_plain_template(entry.1.as_str()) {
                return Some(entry.1.clone());
            }
            b = b + 1;
        }
        a = a + 1;
    }
    None
}

impl VarsRenderer {
    /// Expands the values of the tables of variables with the environment
    /// `env_vars`, and keeps both for the templates to come. The values
    /// know the environment and nothing else.
    pub fn new(vars_config: &VarsConfig, env_vars: &Vec<(String, String)>) -> (r: Result<
        Self,
        TemplateError,
    >)
        ensures
            match spec_render_vars(
                context_tables(table_view(env_vars@), Seq::empty()),
                Seq::empty(),
                tables_view(vars_config@),
            ) {
                Ok(vars) => r matches Ok(renderer) && tables_view(renderer.vars@) == vars
                    && table_view(renderer.env_obj@) == table_view(env_vars@)
                    && renderer.chayd_obj is None,
                Err(error) => r matches Err(other) && template_error_view(other) == error,
            },
            r matches Err(TemplateError::NotPlain { template }) ==> !plain_template(template@),
    {
        let mut vars_renderer = VarsRenderer {
            vars: Vec::new(),
            chayd_obj: None,
            env_obj: Vec::new(),
        };
        vars_renderer.add_env_vars(env_vars);
        assert(table_view(vars_renderer.env_obj@) =~= table_view(env_vars@));
        assert(tables_view(vars_renderer.vars@) =~= Seq::empty());
        let rendered_vars_config = vars_renderer.render_vars_config(vars_config)?;
        vars_renderer.vars = rendered_vars_config;
        Ok(vars_renderer)
    }

    /// Makes `ctx_vars` what templates know as `chayd.ctx` from now on.
    pub fn add_ctx_vars(&mut self, ctx_vars: &Vec<(String, String)>)
        ensures
            final(self).chayd_obj matches Some(table) && table_view(table@) == table_view(
                ctx_vars@,
            ),
            final(self).vars == old(self).vars,
            final(self).env_obj == old(self).env_obj,
    {
        self.chayd_obj = Some(clone_table(ctx_vars));
    }

    /// Adds `env_vars` to what templates know as `env`. Of two values of
    /// one name the later counts: see [`VarsRenderer::context_entries`].
    pub fn add_env_vars(&mut self, env_vars: &Vec<(String, String)>)
        ensures
            table_view(final(self).env_obj@) == table_view(old(self).env_obj@) + table_view(
                env_vars@,
            ),
            final(self).vars == old(self).vars,
            final(self).chayd_obj == old(self).chayd_obj,
    {
        let ghost before = self.env_obj@;
        let mut i: usize = 0;
        while i < env_vars.len()
            invariant
                i <= env_vars@.len(),
                self.vars == old(self).vars,
                self.chayd_obj == old(self).chayd_obj,
                before == old(self).env_obj@,
                self.env_obj@.len() == before.len() + i,
                forall|k: int| 0 <= k < before.len() ==> self.env_obj@[k] == before[k],
                forall|k: int|
                    before.len() <= k < before.len() + i ==> (#[trigger] self.env_obj@[k]).0@
                        == env_vars@[k - before.len()].0@ && self.env_obj@[k].1@
                        == env_vars@[k - before.len()].1@,
            decreases env_vars@.len() - i,
        {
            let entry = &env_vars[i];
            self.env_obj.push((entry.0.clone(), entry.1.clone()));
            i = i + 1;
        }
        assert(table_view(self.env_obj@) =~= table_view(before) + table_view(env_vars@));
    }

    /// What templates know as `chayd.ctx`, as characters.
    pub open spec fn spec_ctx(self) -> Option<TableView> {
        match self.chayd_obj {
            Some(table) => Some(table_view(table@)),
            None => None,
        }
    }

    /// The tables that templates know by name: see [`context_tables`].
    pub open spec fn spec_context_tables(self) -> TablesView {
        context_tables(table_view(self.env_obj@), tables_view(self.vars@))
    }

    /// The objects that templates know by name: see [`context_objects`].
    pub open spec fn spec_context_objects(self) -> ObjectsView {
        context_objects(self.spec_ctx())
    }

    /// What templates are expanded with, as it is handed to the template
    /// engine: the tables and the objects by name, in the order in which
    /// they are made known.
    pub fn context_entries(&self) -> (r: ContextEntries)
        ensures
            tables_view(r.tables@) == self.spec_context_tables(),
            objects_view(r.objects@) == self.spec_context_objects(),
    {
        let mut tables: Vec<(String, Vec<(String, String)>)> = Vec::new();
        tables.push((String::from_str("env"), latest_values(&self.env_obj)));
        let mut i: usize = 0;
        while i < self.vars.len()
            invariant
                i <= self.vars@.len(),
                tables@.len() == 1 + i,
                tables@[0].0@ == "env"@,
                table_view(tables@[0].1@) == latest(table_view(self.env_obj@)),
                forall|k: int|
                    0 <= k < i ==> (#[trigger] tables@[1 + k]).0@ == self.vars@[k].0@
                        && table_view(tables@[1 + k].1@) == latest(table_view(self.vars@[k].1@)),
            decreases self.vars@.len() - i,
        {
            let entry = &self.vars[i];
            tables.push((entry.0.clone(), latest_values(&entry.1)));
            i = i + 1;
        }
        assert(tables_view(tables@) =~= self.spec_context_tables()) by {
            assert(tables_view(tables@).len() == self.spec_context_tables().len());
            assert forall|k: int| 0 <= k < tables@.len() implies tables_view(tables@)[k]
                == self.spec_context_tables()[k] by {
                if k > 0 {
                    assert(tables@[1 + (k - 1)] == tables@[k]);
                    assert(tables_view(self.vars@)[k - 1] == (
                        self.vars@[k - 1].0@,
                        table_view(self.vars@[k - 1].1@),
                    ));
                }
            }
        }
        let mut objects: Vec<(String, Vec<(String, Vec<(String, String)>)>)> = Vec::new();
        if let Some(ctx_vars) = &self.chayd_obj {
            let mut object: Vec<(String, Vec<(String, String)>)> = Vec::new();
            object.push((String::from_str("ctx"), latest_values(ctx_vars)));
            assert(tables_view(object@) =~= seq![("ctx"@, latest(table_view(ctx_vars@)))]);
            objects.push((String::from_str("chayd"), object));
        }
        assert(objects_view(objects@) =~= self.spec_context_objects());
        ContextEntries { tables, objects }
    }

    /// Expands every value of the tables. If a value is not a plain
    /// template, none is handed to the template engine; else the result is
    /// the tables with the expansions in place of the values, or the
    /// failure of the engine if it cannot expand one of them.
    pub fn render_vars_config(&self, vars_config: &VarsConfig) -> (r: Result<
        VarsConfig,
        TemplateError,
    >)
        ensures
            tables_agree(
                r,
                spec_render_vars(
                    self.spec_context_tables(),
                    self.spec_context_objects(),
                    tables_view(vars_config@),
                ),
            ),
            r matches Err(TemplateError::NotPlain { template }) ==> !plain_template(template@),
    {
        if let Some(template) = first_not_plain_value(vars_config) {
            return Err(TemplateError::NotPlain { template });
        }
        let ghost tables = self.spec_context_tables();
        let ghost objects = self.spec_context_objects();
        let ghost vars = tables_view(vars_config@);
        let ghost wanted = expanded_values(tables, objects, vars);
        let entries = self.context_entries();
        let mut rendered_vars_config: VarsConfig = Vec::new();
        let mut i: usize = 0;
        while i < vars_config.len()
            invariant
                plain_values(vars),
                vars == tables_view(vars_config@),
                wanted == expanded_values(tables, objects, vars),
                tables == self.spec_context_tables(),
                objects == self.spec_context_objects(),
                tables == tables_view(entries.tables@),
                objects == objects_view(entries.objects@),
                i <= vars_config@.len(),
                rendered_vars_config@.len() == i,
                forall|k: int|
                    0 <= k < i ==> (#[trigger] rendered_vars_config@[k]).0@ == wanted[k].0
                        && table_view(rendered_vars_config@[k].1@) == wanted[k].1,
                forall|a: int, b: int|
                    0 <= a < i && 0 <= b < vars[a].1.len() ==> tera_expansion(
                        tables,
                        objects,
                        (#[trigger] vars[a].1[b]).1,
                    ) is Some,
            decreases vars_config@.len() - i,
        {
            let table = &vars_config[i];
            let mut rendered_table: Vec<(String, String)> = Vec::new();
            let mut j: usize = 0;
            while j < table.1.len()
                invariant
                    plain_values(vars),
                    vars == tables_view(vars_config@),
                    tables == self.spec_context_tables(),
                    objects == self.spec_context_objects(),
                    tables == tables_view(entries.tables@),
                    objects == objects_view(entries.objects@),
                    i < vars_config@.len(),
                    *table == vars_config@[i as int],
                    j <= table.1@.len(),
                    rendered_table@.len() == j,
                    forall|k: int|
                        0 <= k < j ==> tera_expansion(
                            tables,
                            objects,
                            (#[trigger] vars[i as int].1[k]).1,
                        ) is Some,
                    forall|k: int|
                        0 <= k < j ==> (#[trigger] rendered_table@[k]).0@ == vars[i as int].1[k].0
                            && tera_expansion(tables, objects, vars[i as int].1[k].1) == Some(
                            rendered_table@[k].1@,
                        ),
                decreases table.1@.len() - j,
            {
                let entry = &table.1[j];
                assert(vars[i as int].1[j as int] == (entry.0@, entry.1@));
                match tera_render_str(&entries, entry.1.as_str()) {
                    Ok(value) => {
                        rendered_table.push((entry.0.clone(), value));
                    },
                    Err(error) => {
                        assert(!values_expand(tables, objects, vars)) by {
                            assert(tera_expansion(tables, objects, vars[i as int].1[j as int].1)
                                is None);
                        }
                        return Err(TemplateError::Engine { error });
                    },
                }
                j = j + 1;
            }
            assert(table_view(rendered_table@) =~= wanted[i as int].1);
            rendered_vars_config.push((table.0.clone(), rendered_table));
            i = i + 1;
        }
        assert(values_expand(tables, objects, vars));
        assert(tables_view(rendered_vars_config@) =~= wanted);
        Ok(rendered_vars_config)
    }

    /// What the engine expands the template to, with what this renderer
    /// makes known to it.
    pub open spec fn spec_expansion(self, template: Seq<char>) -> Option<Seq<char>> {
        tera_expansion(self.spec_context_tables(), self.spec_context_objects(), template)
    }

    /// Expands one template. A template that is not plain is not handed to
    /// the template engine.
    pub fn render_str(&self, config_str: &str) -> (r: Result<String, TemplateError>)
        ensures
            match r {
                Ok(expanded) => plain_template(config_str@) && self.spec_expansion(config_str@)
                    == Some(expanded@),
                Err(TemplateError::NotPlain { template }) => !plain_template(config_str@)
                    && template@ == config_str@,
                Err(TemplateError::Engine { .. }) => plain_template(config_str@)
                    && self.spec_expansion(config_str@) is None,
            },
    {
        if !is_plain_template(config_str) {
            return Err(TemplateError::NotPlain { template: String::from_str(config_str) });
        }
        let entries = self.context_entries();
        match tera_render_str(&entries, config_str) {
            Ok(rendered) => Ok(rendered),
            Err(error) => Err(TemplateError::Engine { error }),
        }
    }

    /// Expands every template of the list, in order. If a template is not
    /// plain, none is handed to the template engine; else the result is the
    /// expansions, one for each template, or the failure of the engine if
    /// it cannot expand one of them.
    pub fn render_all(&self, templates: &Vec<String>) -> (r: Result<Vec<String>, TemplateError>)
        ensures
            strings_agree(
                r,
                spec_render_all(
                    self.spec_context_tables(),
                    self.spec_context_objects(),
                    strings_view(templates@),
                ),
            ),
            r matches Err(TemplateError::NotPlain { template }) ==> !plain_template(template@),
    {
        if let Some(template) = first_not_plain(templates) {
            return Err(TemplateError::NotPlain { template });
        }
        let ghost tables = self.spec_context_tables();
        let ghost objects = self.spec_context_objects();
        let ghost wanted = strings_view(templates@);
        let n = templates.len();
        let entries = self.context_entries();
        let mut rendered: Vec<String> = Vec::new();
        let mut j: usize = 0;
        while j < n
            invariant
                n == templates@.len(),
                j <= n,
                rendered@.len() == j,
                wanted == strings_view(templates@),
                all_plain(wanted),
                tables == self.spec_context_tables(),
                objects == self.spec_context_objects(),
                tables == tables_view(entries.tables@),
                objects == objects_view(entries.objects@),
                forall|k: int|
                    0 <= k < j ==> tera_expansion(tables, objects, #[trigger] wanted[k]) == Some(
                        rendered@[k]@,
                    ),
            decreases n - j,
        {
            assert(wanted[j as int] == templates@[j as int]@);
            match tera_render_str(&entries, templates[j].as_str()) {
                Ok(value) => {
                    rendered.push(value);
                },
                Err(error) => {
                    assert(!all_expand(tables, objects, wanted)) by {
                        assert(tera_expansion(tables, objects, wanted[j as int]) is None);
                    }
                    return Err(TemplateError::Engine { error });
                },
            }
            j = j + 1;
        }
        assert(all_expand(tables, objects, wanted));
        assert(strings_view(rendered@) =~= expansions(tables, objects, wanted));
        Ok(rendered)
    }
}

/// What comes of rendering one program of a configuration.
pub enum RenderOutcome {
    /// All was expanded: the strings that take the place of the templates
    /// of the program and, if the program names a logger, of the templates
    /// of that logger.
    Rendered { program: Seq<Seq<char>>, logger: Option<Seq<Seq<char>>> },
    /// A template is not plain.
    NotPlain,
    /// The template engine could not expand a template.
    Engine,
    /// The program names a logger that the configuration does not have.
    LoggerNotFound { logger_name: Seq<char> },
}

/// An error as an outcome.
pub open spec fn config_error_view(error: ConfigError) -> RenderOutcome {
    match error {
        ConfigError::Template { error: TemplateError::NotPlain { .. } } => RenderOutcome::NotPlain,
        ConfigError::Template { error: TemplateError::Engine { .. } } => RenderOutcome::Engine,
        ConfigError::LoggerNotFound { logger_name } => RenderOutcome::LoggerNotFound {
            logger_name: logger_name@,
        },
    }
}

/// The position of the logger that the program names, if it names one that
/// the configuration has.
pub open spec fn spec_found_logger(config: Config, program_config: ProgramConfig) -> Option<int> {
    match program_config.logger {
        Some(logger_name) => spec_find_logger(config.loggers@, logger_name@),
        None => None,
    }
}

/// The templates of the logger that the program names, if it names one
/// that the configuration has.
pub open spec fn spec_logger_templates(config: Config, program_config: ProgramConfig) -> Seq<
    Seq<char>,
> {
    match spec_found_logger(config, program_config) {
        Some(i) => config.loggers@[i].1.spec_templates(),
        None => Seq::empty(),
    }
}

/// What comes of rendering the program `program_name` of a configuration
/// with the environment `env`.
///
/// If a value of the variables, a template of the program or a template of
/// the logger that it names is not plain, nothing is handed to the engine.
/// Else the values of the variables are expanded, knowing the environment;
/// then the templates of the program, knowing the environment and the
/// variables; then, if the program names a logger, the templates of that
/// logger, which know the program as well. The first that the engine
/// cannot expand ends the rendering, and so does a logger that is named
/// and not there, once the program is expanded.
pub open spec fn spec_new(
    config: Config,
    program_name: Seq<char>,
    program_config: ProgramConfig,
    env: TableView,
) -> RenderOutcome {
    let vars = tables_view(config.vars@);
    let logger_templates = spec_logger_templates(config, program_config);
    if !plain_values(vars) || !all_plain(program_config.spec_templates()) || !all_plain(
        logger_templates,
    ) {
        RenderOutcome::NotPlain
    } else {
        match spec_render_vars(context_tables(env, Seq::empty()), Seq::empty(), vars) {
            Err(_) => RenderOutcome::Engine,
            Ok(known) => {
                let tables = context_tables(env, known);
                match spec_render_all(tables, Seq::empty(), program_config.spec_templates()) {
                    Err(_) => RenderOutcome::Engine,
                    Ok(program) => match program_config.logger {
                        None => RenderOutcome::Rendered { program, logger: None },
                        Some(logger_name) => match spec_found_logger(config, program_config) {
                            None => RenderOutcome::LoggerNotFound { logger_name: logger_name@ },
                            Some(_) => match spec_render_all(
                                tables,
                                context_objects(Some(program_ctx(program_name))),
                                logger_templates,
                            ) {
                                Err(_) => RenderOutcome::Engine,
                                Ok(logger) => RenderOutcome::Rendered {
                                    program,
                                    logger: Some(logger),
                                },
                            },
                        },
                    },
                }
            },
        }
    }
}

/// The program or the error that came is the one that was to come.
pub open spec fn program_agrees(
    got: Result<ProgramConfig, TemplateError>,
    before: ProgramConfig,
    expected: Result<Seq<Seq<char>>, TemplateErrorView>,
) -> bool {
    match expected {
        Ok(strings) => got matches Ok(rendered) && rendered.is_rendered_as(before, strings),
        Err(error) => got matches Err(other) && template_error_view(other) == error,
    }
}

/// The logger or the error that came is the one that was to come.
pub open spec fn logger_agrees(
    got: Result<LoggerConfig, TemplateError>,
    before: LoggerConfig,
    expected: Result<Seq<Seq<char>>, TemplateErrorView>,
) -> bool {
    match expected {
        Ok(strings) => got matches Ok(rendered) && rendered.is_rendered_as(before, strings),
        Err(error) => got matches Err(other) && template_error_view(other) == error,
    }
}

impl RenderedProgramConfig {
    /// Whether `self` is the program with `program` in place of its
    /// templates and, if it names a logger, that logger of the
    /// configuration with `logger` in place of its templates.
    pub open spec fn is_rendering_of(
        self,
        config: Config,
        program_config: ProgramConfig,
        program: Seq<Seq<char>>,
        logger: Option<Seq<Seq<char>>>,
    ) -> bool {
        &&& self.program.is_rendered_as(program_config, program)
        &&& match logger {
            None => self.logger is None,
            Some(strings) => self.logger matches Some(rendered) && spec_found_logger(
                config,
                program_config,
            ) matches Some(i) && rendered.is_rendered_as(config.loggers@[i].1, strings),
        }
    }

    /// What `new` has made of a program of a configuration.
    pub open spec fn rendered_from(
        self,
        config: Config,
        program_name: Seq<char>,
        program_config: ProgramConfig,
        env: TableView,
    ) -> bool {
        spec_new(config, program_name, program_config, env) matches RenderOutcome::Rendered {
            program,
            logger,
        } && self.is_rendering_of(config, program_config, program, logger)
    }

    /// The program `program_name` of the configuration with every template
    /// expanded, together with the logger that it names. Templates know
    /// `env_vars` as `env`.
    ///
    /// What comes is what [`spec_new`] says: the rendered program, or the
    /// reason for which there is none.
    pub fn new(
        config: &Config,
        program_name: &str,
        program_config: &ProgramConfig,
        env_vars: &Vec<(String, String)>,
    ) -> (r: Result<Self, ConfigError>)
        ensures
            match spec_new(*config, program_name@, *program_config, table_view(env_vars@)) {
                RenderOutcome::Rendered { program, logger } => r matches Ok(rendered)
                    && rendered.is_rendering_of(*config, *program_config, program, logger),
                failure => r matches Err(error) && config_error_view(error) == failure,
            },
            r matches Err(ConfigError::Template { error: TemplateError::NotPlain { template } })
                ==> !plain_template(template@),
    {
        if let Some(template) = first_not_plain_value(&config.vars) {
            return Err(ConfigError::Template { error: TemplateError::NotPlain { template } });
        }
        let program_templates = program_config.templates();
        if let Some(template) = first_not_plain(&program_templates) {
            return Err(ConfigError::Template { error: TemplateError::NotPlain { template } });
        }
        let found = match &program_config.logger {
            Some(logger_name) => find_logger(&config.loggers, logger_name),
            None => None,
        };
        if let Some(logger_config) = found {
            let logger_templates = logger_config.templates();
            if let Some(template) = first_not_plain(&logger_templates) {
                return Err(ConfigError::Template { error: TemplateError::NotPlain { template } });
            }
        } else {
            assert(all_plain(Seq::<Seq<char>>::empty()));
        }
        let mut vars_renderer = match VarsRenderer::new(&config.vars, env_vars) {
            Ok(renderer) => renderer,
            Err(error) => {
                return Err(ConfigError::Template { error });
            },
        };
        let program = match Self::render_program(program_config, &vars_renderer) {
            Ok(program) => program,
            Err(error) => {
                return Err(ConfigError::Template { error });
            },
        };
        match &program_config.logger {
            None => Ok(RenderedProgramConfig { program, logger: None }),
            Some(logger_name) => match found {
                None => Err(ConfigError::LoggerNotFound { logger_name: logger_name.clone() }),
                Some(logger_config) => {
                    match Self::render_logger(logger_config, program_name, &mut vars_renderer) {
                        Ok(logger) => Ok(RenderedProgramConfig { program, logger: Some(logger) }),
                        Err(error) => Err(ConfigError::Template { error }),
                    }
                },
            },
        }
    }

    /// The program with the templates in its command, its arguments and its
    /// pre-command expanded: the templates of
    /// [`ProgramConfig::templates`] are handed to the template engine, and
    /// what comes back takes their place.
    pub fn render_program(program_config: &ProgramConfig, vars_renderer: &VarsRenderer) -> (r:
        Result<ProgramConfig, TemplateError>)
        ensures
            program_agrees(
                r,
                *program_config,
                spec_render_all(
                    vars_renderer.spec_context_tables(),
                    vars_renderer.spec_context_objects(),
                    program_config.spec_templates(),
                ),
            ),
            r matches Err(TemplateError::NotPlain { template }) ==> !plain_template(template@),
    {
        let templates = program_config.templates();
        let rendered = vars_renderer.render_all(&templates)?;
        assert(strings_view(rendered@).len() == strings_view(templates@).len());
        assert(strings_view(rendered@).len() == rendered@.len());
        Ok(program_config.with_rendered(&rendered))
    }

    /// The logger with the templates in its command, its arguments and its
    /// pre-command expanded: the templates of [`LoggerConfig::templates`]
    /// are handed to the template engine, and what comes back takes their
    /// place. The templates know the program that the logger belongs to as
    /// `chayd.ctx.program`, and so do the templates that are expanded with
    /// this renderer afterwards.
    pub fn render_logger(
        logger_config: &LoggerConfig,
        program_name: &str,
        vars_renderer: &mut VarsRenderer,
    ) -> (r: Result<LoggerConfig, TemplateError>)
        ensures
            logger_agrees(
                r,
                *logger_config,
                spec_render_all(
                    old(vars_renderer).spec_context_tables(),
                    context_objects(Some(program_ctx(program_name@))),
                    logger_config.spec_templates(),
                ),
            ),
            r matches Err(TemplateError::NotPlain { template }) ==> !plain_template(template@),
            final(vars_renderer).spec_ctx() == Some(program_ctx(program_name@)),
            final(vars_renderer).vars == old(vars_renderer).vars,
            final(vars_renderer).env_obj == old(vars_renderer).env_obj,
    {
        let mut ctx_vars: Vec<(String, String)> = Vec::new();
        ctx_vars.push((String::from_str("program"), String::from_str(program_name)));
        assert(table_view(ctx_vars@) =~= program_ctx(program_name@));
        vars_renderer.add_ctx_vars(&ctx_vars);
        let templates = logger_config.templates();
        let rendered = vars_renderer.render_all(&templates)?;
        assert(strings_view(rendered@).len() == strings_view(templates@).len());
        assert(strings_view(rendered@).len() == rendered@.len());
        Ok(logger_config.with_rendered(&rendered))
    }
}

/// What comes of rendering the program at position `i` of a configuration.
#[verifier::opaque]
pub open spec fn spec_new_at(config: Config, env: TableView, i: int) -> RenderOutcome {
    spec_new(config, config.programs@[i].0@, config.programs@[i].1, env)
}

/// The position of the first program from position `from` on that is not
/// rendered, if there is one.
pub open spec fn first_failure(config: Config, env: TableView, from: int) -> Option<int>
    decreases config.programs@.len() - from,
{
    if from < 0 || from >= config.programs@.len() {
        None
    } else if spec_new_at(config, env, from) is Rendered {
        first_failure(config, env, from + 1)
    } else {
        Some(from)
    }
}

/// Every program of the list is what `RenderedProgramConfig::new` makes of
/// the program at the same place in the configuration, under its name.
pub open spec fn rendered_programs(
    rendered: Seq<(String, RenderedProgramConfig)>,
    config: Config,
    env: TableView,
) -> bool {
    &&& rendered.len() == config.programs@.len()
    &&& forall|i: int|
        0 <= i < rendered.len() ==> (#[trigger] rendered[i]).0@ == config.programs@[i].0@
            && rendered[i].1.rendered_from(
            config,
            config.programs@[i].0@,
            config.programs@[i].1,
            env,
        )
}

/// Every program of the configuration with its templates expanded and its
/// logger, by name and in the order of the configuration. Templates know
/// `env_vars` as `env`.
///
/// Each program is rendered alone, as [`RenderedProgramConfig::new`]
/// renders it. If every program is rendered, the result is all of them;
/// else it is the error of the first that is not.
pub fn render(config: &Config, env_vars: &Vec<(String, String)>) -> (r: Result<
    Vec<(String, RenderedProgramConfig)>,
    ConfigError,
>)
    ensures
        match first_failure(*config, table_view(env_vars@), 0) {
            None => r matches Ok(rendered) && rendered_programs(
                rendered@,
                *config,
                table_view(env_vars@),
            ),
            Some(i) => r matches Err(error) && config_error_view(error) == spec_new_at(
                *config,
                table_view(env_vars@),
                i,
            ),
        },
        r is Ok <==> forall|i: int|
            0 <= i < config.programs@.len() ==> (#[trigger] spec_new(
                *config,
                config.programs@[i].0@,
                config.programs@[i].1,
                table_view(env_vars@),
            )) is Rendered,
        r matches Ok(rendered) ==> rendered_names(rendered@) == program_names(config.programs@),
        r matches Ok(rendered) ==> (config.wf() ==> ascending(rendered_names(rendered@))),
{
    let ghost env = table_view(env_vars@);
    proof {
        lemma_render_is_all_or_nothing(*config, env);
    }
    let mut rendered_config: Vec<(String, RenderedProgramConfig)> = Vec::new();
    let mut i: usize = 0;
    while i < config.programs.len()
        invariant
            env == table_view(env_vars@),
            i <= config.programs@.len(),
            rendered_config@.len() == i,
            first_failure(*config, env, 0) == first_failure(*config, env, i as int),
            forall|k: int|
                0 <= k < i ==> (#[trigger] rendered_config@[k]).0@ == config.programs@[k].0@
                    && rendered_config@[k].1.rendered_from(
                    *config,
                    config.programs@[k].0@,
                    config.programs@[k].1,
                    env,
                ),
        decreases config.programs@.len() - i,
    {
        proof {
            reveal(spec_new_at);
            lemma_render_is_all_or_nothing(*config, env);
        }
        let entry = &config.programs[i];
        let rendered = RenderedProgramConfig::new(
            config,
            entry.0.as_str(),
            &entry.1,
            env_vars,
        )?;
        rendered_config.push((entry.0.clone(), rendered));
        i = i + 1;
    }
    assert(rendered_names(rendered_config@) =~= program_names(config.programs@));
    Ok(rendered_config)
}

/// Where [`first_failure`] finds a program, it is the first from `from` on
/// that is not rendered; where it finds none, every program from `from` on
/// is rendered.
pub proof fn lemma_first_failure(config: Config, env: TableView, from: int)
    requires
        0 <= from,
    ensures
        match first_failure(config, env, from) {
            Some(i) => from <= i < config.programs@.len() && !(spec_new_at(config, env, i)
                is Rendered) && forall|k: int|
                from <= k < i ==> #[trigger] spec_new_at(config, env, k) is Rendered,
            None => forall|k: int|
                from <= k < config.programs@.len() ==> #[trigger] spec_new_at(config, env, k)
                    is Rendered,
        },
    decreases config.programs@.len() - from,
{
    if from < config.programs@.len() && spec_new_at(config, env, from) is Rendered {
        lemma_first_failure(config, env, from + 1);
    }
}

/// No program is found by [`first_failure`] exactly if every program of
/// the configuration is rendered.
pub proof fn lemma_render_is_all_or_nothing(config: Config, env: TableView)
    ensures
        first_failure(config, env, 0) is None <==> forall|i: int|
            0 <= i < config.programs@.len() ==> (#[trigger] spec_new(
                config,
                config.programs@[i].0@,
                config.programs@[i].1,
                env,
            )) is Rendered,
{
    lemma_first_failure(config, env, 0);
    assert forall|i: int| 0 <= i < config.programs@.len() implies spec_new_at(config, env, i)
        == spec_new(config, config.programs@[i].0@, config.programs@[i].1, env) by {
        reveal(spec_new_at);
    }
    if first_failure(config, env, 0) is None {
        assert forall|i: int| 0 <= i < config.programs@.len() implies (#[trigger] spec_new(
            config,
            config.programs@[i].0@,
            config.programs@[i].1,
            env,
        )) is Rendered by {
            assert(spec_new_at(config, env, i) is Rendered);
        }
    } else {
        let at = first_failure(config, env, 0).unwrap();
        assert(!(spec_new_at(config, env, at) is Rendered));
    }
}

/// The configuration is rendered exactly if each of its programs is, and
/// fails with the error of the first program that is not.
pub proof fn law_render_is_all_or_the_first_failure(config: Config, env: TableView)
    ensures
        first_failure(config, env, 0) is None <==> forall|k: int|
            0 <= k < config.programs@.len() ==> #[trigger] spec_new_at(config, env, k)
                is Rendered,
        first_failure(config, env, 0) matches Some(i) ==> 0 <= i < config.programs@.len()
            && !(spec_new_at(config, env, i) is Rendered) && forall|k: int|
            0 <= k < i ==> #[trigger] spec_new_at(config, env, k) is Rendered,
{
    lemma_first_failure(config, env, 0);
}

/// When every template is plain and the engine can expand the values of
/// the variables and the templates of the program, a program is rendered
/// exactly if it names no logger, or names one that the configuration has
/// and whose templates the engine can expand. If it names a logger that
/// the configuration does not have, that is what is told, and only then.
pub proof fn law_missing_logger_is_told(
    config: Config,
    program_name: Seq<char>,
    program_config: ProgramConfig,
    env: TableView,
)
    ensures
        ({
            let vars = tables_view(config.vars@);
            let outcome = spec_new(config, program_name, program_config, env);
            let plain = plain_values(vars) && all_plain(program_config.spec_templates())
                && all_plain(spec_logger_templates(config, program_config));
            let known = expanded_values(context_tables(env, Seq::empty()), Seq::empty(), vars);
            let tables = context_tables(env, known);
            let expands = values_expand(context_tables(env, Seq::empty()), Seq::empty(), vars)
                && all_expand(tables, Seq::empty(), program_config.spec_templates());
            let logger_expands = all_expand(
                tables,
                context_objects(Some(program_ctx(program_name))),
                spec_logger_templates(config, program_config),
            );
            &&& outcome is NotPlain <==> !plain
            &&& outcome is LoggerNotFound <==> plain && expands && program_config.logger is Some
                && spec_found_logger(config, program_config) is None
            &&& outcome matches RenderOutcome::LoggerNotFound { logger_name } ==> (
            program_config.logger matches Some(named) && named@ == logger_name)
            &&& outcome is Rendered <==> plain && expands && (program_config.logger is None || (
            spec_found_logger(config, program_config) is Some && logger_expands))
            &&& outcome matches RenderOutcome::Rendered { program, logger } ==> ((logger is None
                <==> program_config.logger is None) && program == expansions(
                tables,
                Seq::empty(),
                program_config.spec_templates(),
            ))
        }),
{
}

/// The names of the programs of a configuration, in order.
pub open spec fn program_names(programs: Seq<(String, ProgramConfig)>) -> Seq<Seq<char>> {
    Seq::new(programs.len(), |i: int| programs[i].0@)
}

/// The names of the loggers of a configuration, in order.
pub open spec fn logger_names(loggers: Seq<(String, LoggerConfig)>) -> Seq<Seq<char>> {
    Seq::new(loggers.len(), |i: int| loggers[i].0@)
}

/// The names of the rendered programs, in order.
pub open spec fn rendered_names(rendered: Seq<(String, RenderedProgramConfig)>) -> Seq<Seq<char>> {
    Seq::new(rendered.len(), |i: int| rendered[i].0@)
}

impl Config {
    /// The programs and the loggers are kept by name, ascending: no two
    /// programs and no two loggers have the same name.
    pub open spec fn wf(self) -> bool {
        &&& ascending(program_names(self.programs@))
        &&& ascending(logger_names(self.loggers@))
    }

    /// Whether the programs and the loggers are in ascending order of
    /// their names.
    pub fn is_wf(&self) -> (r: bool)
        ensures
            r == self.wf(),
    {
        let mut i: usize = 1;
        while i < self.programs.len()
            invariant
                1 <= i,
                forall|k: int|
                    0 <= k < i - 1 && k < self.programs@.len() - 1 ==> crate::names::name_less(
                        #[trigger] program_names(self.programs@)[k],
                        program_names(self.programs@)[k + 1],
                    ),
            decreases self.programs@.len() - i,
        {
            if !is_name_less(self.programs[i - 1].0.as_str(), self.programs[i].0.as_str()) {
                assert(!crate::names::name_less(
                    program_names(self.programs@)[i - 1],
                    program_names(self.programs@)[i - 1 + 1],
                ));
                return false;
            }
            i = i + 1;
        }
        let mut j: usize = 1;
        while j < self.loggers.len()
            invariant
                1 <= j,
                ascending(program_names(self.programs@)),
                forall|k: int|
                    0 <= k < j - 1 && k < self.loggers@.len() - 1 ==> crate::names::name_less(
                        #[trigger] logger_names(self.loggers@)[k],
                        logger_names(self.loggers@)[k + 1],
                    ),
            decreases self.loggers@.len() - j,
        {
            if !is_name_less(self.loggers[j - 1].0.as_str(), self.loggers[j].0.as_str()) {
                assert(!crate::names::name_less(
                    logger_names(self.loggers@)[j - 1],
                    logger_names(self.loggers@)[j - 1 + 1],
                ));
                return false;
            }
            j = j + 1;
        }
        true
    }
}

} // verus!
