//! The configuration: the tasks to run, the colors of the light, and the
//! environment variables set before the tasks run.
use vstd::prelude::*;

use crate::colors::{led_named, Colors, Led};
use crate::document::{document_of, parse_document, Node};
use crate::task::{strings_view, strs_view, Task, TaskView};

verus! {

/// Why a configuration was refused.
#[derive(Debug, Clone, PartialEq, Eq)]
pub enum ConfigError {
    /// The text is not a TOML document.
    Syntax,
    /// A key is missing or holds the wrong kind of value; the key's path.
    Invalid(String),
    /// A color name outside the palette.
    UnknownColor(String),
    /// An environment variable set twice.
    DuplicateVariable(String),
}

/// A configuration as a mathematical value.
pub struct ConfigView {
    pub tasks: Seq<TaskView>,
    pub pending: Seq<Led>,
    pub failure: Led,
    pub success: Led,
    pub env: Option<Seq<(Seq<char>, Seq<char>)>>,
}

/// The views of a list of tasks.
pub open spec fn tasks_view(tasks: Seq<Task>) -> Seq<TaskView> {
    tasks.map_values(|t: Task| t@)
}

/// The views of a list of environment variables.
pub open spec fn env_view(env: Option<Vec<(String, String)>>) -> Option<Seq<(Seq<char>, Seq<char>)>> {
    match env {
        Some(v) => Some(v@.map_values(|p: (String, String)| (p.0@, p.1@))),
        None => None,
    }
}

/// Every name is in the palette.
pub open spec fn all_known(names: Seq<Seq<char>>) -> bool {
    forall|i: int| 0 <= i < names.len() ==> (#[trigger] led_named(names[i])).is_some()
}

/// The colors that a list of palette names stands for.
pub open spec fn resolved(names: Seq<Seq<char>>) -> Seq<Led> {
    names.map_values(|n: Seq<char>| led_named(n).unwrap())
}

/// No variable is set twice.
pub open spec fn keys_distinct(env: Seq<(Seq<char>, Seq<char>)>) -> bool {
    forall|a: int, b: int| 0 <= a < b < env.len() ==> env[a].0 != env[b].0
}

/// Every color name is in the palette.
pub open spec fn colors_known(pending: Seq<Seq<char>>, failure: Seq<char>, success: Seq<char>) -> bool {
    all_known(pending) && led_named(failure).is_some() && led_named(success).is_some()
}

/// What building a configuration from its settings gives: the colors are
/// resolved, an unknown one is refused first, then a variable set twice.
pub open spec fn names_result(
    r: Result<Config, ConfigError>,
    tasks: Seq<TaskView>,
    pending: Seq<Seq<char>>,
    failure: Seq<char>,
    success: Seq<char>,
    env: Option<Seq<(Seq<char>, Seq<char>)>>,
) -> bool {
    match r {
        Ok(c) => {
            &&& colors_known(pending, failure, success)
            &&& (env matches Some(e) ==> keys_distinct(e))
            &&& c@ == (ConfigView {
                tasks,
                pending: resolved(pending),
                failure: led_named(failure).unwrap(),
                success: led_named(success).unwrap(),
                env,
            })
        },
        Err(ConfigError::UnknownColor(n)) => {
            &&& !colors_known(pending, failure, success)
            &&& pending.contains(n@) || n@ == failure || n@ == success
            &&& led_named(n@).is_none()
        },
        Err(ConfigError::DuplicateVariable(k)) => {
            &&& colors_known(pending, failure, success)
            &&& env matches Some(e) && exists|a: int, b: int|
                0 <= a < b < e.len() && e[a].0 == k@ && e[b].0 == k@
        },
        Err(_) => false,
    }
}

/// The text of a string value.
pub open spec fn text_of(n: Node) -> Option<Seq<char>> {
    match n {
        Node::Text(s) => Some(s@),
        _ => None,
    }
}

/// The value of the first entry under `key`.
pub open spec fn lookup(entries: Seq<(String, Node)>, key: Seq<char>) -> Option<Node>
    decreases entries.len(),
{
    if entries.len() == 0 {
        None
    } else if entries[0].0@ == key {
        Some(entries[0].1)
    } else {
        lookup(entries.drop_first(), key)
    }
}

/// The texts of array items, when every item is a string.
pub open spec fn texts_of(items: Seq<Node>) -> Option<Seq<Seq<char>>>
    decreases items.len(),
{
    if items.len() == 0 {
        Some(Seq::empty())
    } else {
        match (text_of(items[0]), texts_of(items.drop_first())) {
            (Some(t), Some(ts)) => Some(seq![t] + ts),
            _ => None,
        }
    }
}

/// A task entry: a table with a string `cmd` and, optionally, an array of
/// strings `args`; or the path of the key at fault.
pub open spec fn task_of(item: Node) -> Result<TaskView, Seq<char>> {
    match item {
        Node::Table(fields) => match lookup(fields@, "cmd"@) {
            Some(Node::Text(cmd)) => match lookup(fields@, "args"@) {
                None => Ok(TaskView { cmd: cmd@, args: None }),
                Some(Node::List(a)) => match texts_of(a@) {
                    Some(args) => Ok(TaskView { cmd: cmd@, args: Some(args) }),
                    None => Err("tasks.args"@),
                },
                Some(_) => Err("tasks.args"@),
            },
            _ => Err("tasks.cmd"@),
        },
        _ => Err("tasks"@),
    }
}

/// The task entries in order, or the path at fault in the first bad one.
pub open spec fn tasks_of(items: Seq<Node>) -> Result<Seq<TaskView>, Seq<char>>
    decreases items.len(),
{
    if items.len() == 0 {
        Ok(Seq::empty())
    } else {
        match task_of(items[0]) {
            Err(p) => Err(p),
            Ok(t) => match tasks_of(items.drop_first()) {
                Ok(ts) => Ok(seq![t] + ts),
                Err(p) => Err(p),
            },
        }
    }
}

/// The variables of the `env` table in order, when every value is a string.
pub open spec fn env_of(entries: Seq<(String, Node)>) -> Option<Seq<(Seq<char>, Seq<char>)>>
    decreases entries.len(),
{
    if entries.len() == 0 {
        Some(Seq::empty())
    } else {
        match (text_of(entries[0].1), env_of(entries.drop_first())) {
            (Some(v), Some(vs)) => Some(seq![(entries[0].0@, v)] + vs),
            _ => None,
        }
    }
}

/// The settings found in a document, before the colors are resolved.
pub struct Fields {
    pub tasks: Seq<TaskView>,
    pub pending: Seq<Seq<char>>,
    pub failure: Seq<char>,
    pub success: Seq<char>,
    pub env: Option<Seq<(Seq<char>, Seq<char>)>>,
}

/// The `colors` table: the pending names, the failure and the success name.
pub open spec fn colors_of(colors: Seq<(String, Node)>) -> Result<(Seq<Seq<char>>, Seq<char>, Seq<char>), Seq<char>> {
    match lookup(colors, "pending"@) {
        Some(Node::List(ps)) => match texts_of(ps@) {
            Some(pending) => match lookup(colors, "failure"@) {
                Some(Node::Text(f)) => match lookup(colors, "success"@) {
                    Some(Node::Text(s)) => Ok((pending, f@, s@)),
                    _ => Err("colors.success"@),
                },
                _ => Err("colors.failure"@),
            },
            None => Err("colors.pending"@),
        },
        _ => Err("colors.pending"@),
    }
}

/// The optional `env` table.
pub open spec fn env_field(root: Seq<(String, Node)>) -> Result<Option<Seq<(Seq<char>, Seq<char>)>>, Seq<char>> {
    match lookup(root, "env"@) {
        None => Ok(None),
        Some(Node::Table(e)) => match env_of(e@) {
            Some(env) => Ok(Some(env)),
            None => Err("env"@),
        },
        Some(_) => Err("env"@),
    }
}

/// The settings of a document: `tasks`, then `colors`, then `env` are read,
/// and the first key missing or of the wrong kind is the error.
pub open spec fn fields_of(root: Seq<(String, Node)>) -> Result<Fields, Seq<char>> {
    match lookup(root, "tasks"@) {
        Some(Node::List(items)) => match tasks_of(items@) {
            Err(p) => Err(p),
            Ok(tasks) => match lookup(root, "colors"@) {
                Some(Node::Table(colors)) => match colors_of(colors@) {
                    Err(p) => Err(p),
                    Ok((pending, failure, success)) => match env_field(root) {
                        Err(p) => Err(p),
                        Ok(env) => Ok(Fields { tasks, pending, failure, success, env }),
                    },
                },
                _ => Err("colors"@),
            },
        },
        _ => Err("tasks"@),
    }
}

/// What reading a document gives: `Invalid` with the path at fault, or what
/// `Config::from_names` gives on the settings found.
pub open spec fn document_result(root: Seq<(String, Node)>, r: Result<Config, ConfigError>) -> bool {
    match fields_of(root) {
        Err(p) => r matches Err(ConfigError::Invalid(q)) && q@ == p,
        Ok(f) => names_result(r, f.tasks, f.pending, f.failure, f.success, f.env),
    }
}

/// What reading a configuration text gives: `Syntax` exactly when it is not
/// a TOML document, else what reading the document gives.
pub open spec fn text_result(text: Seq<char>, r: Result<Config, ConfigError>) -> bool {
    match document_of(text) {
        None => r matches Err(ConfigError::Syntax),
        Some(root) => document_result(root@, r),
    }
}

/// The configuration settings as read: everything but the colors is kept as
/// it is, and every color name must be in the palette.
#[derive(Debug)]
pub struct Config {
    tasks: Vec<Task>,
    colors: Colors,
    env: Option<Vec<(String, String)>>,
}

impl View for Config {
    type V = ConfigView;

    closed spec fn view(&self) -> ConfigView {
        ConfigView {
            tasks: tasks_view(self.tasks@),
            pending: self.colors.pending_spec(),
            failure: self.colors.failure_spec(),
            success: self.colors.success_spec(),
            env: env_view(self.env),
        }
    }
}

/// Resolves every name of a list against the palette; the first one outside
/// it is the error.
fn resolve_all(names: &Vec<String>) -> (r: Result<Vec<Led>, String>)
    ensures
        match r {
            Ok(leds) => all_known(strings_view(names@)) && leds@ == resolved(strings_view(names@)),
            Err(n) => !all_known(strings_view(names@)) && strings_view(names@).contains(n@)
                && led_named(n@).is_none(),
        },
{
    let mut leds: Vec<Led> = Vec::new();
    let mut i: usize = 0;
    while i < names.len()
        invariant
            i <= names@.len(),
            leds@.len() == i,
            forall|k: int| 0 <= k < i ==> led_named(#[trigger] names@[k]@) == Some(leds@[k]),
        decreases names@.len() - i,
    {
        match Led::resolve(names[i].as_str()) {
            Ok(led) => leds.push(led),
            Err(e) => {
                assert(strings_view(names@)[i as int] == names@[i as int]@);
                return Err(e.name);
            },
        }
        i = i + 1;
    }
    assert(all_known(strings_view(names@))) by {
        assert forall|k: int| 0 <= k < names@.len() implies (#[trigger] led_named(strings_view(names@)[k])).is_some() by {
            assert(led_named(names@[k]@) == Some(leds@[k]));
        }
    }
    assert(leds@ =~= resolved(strings_view(names@)));
    Ok(leds)
}

/// The color a name stands for, or the name itself as the error.
fn resolve_one(name: String) -> (r: Result<Led, String>)
    ensures
        match r {
            Ok(led) => led_named(name@) == Some(led),
            Err(n) => led_named(name@).is_none() && n@ == name@,
        },
{
    match Led::resolve(name.as_str()) {
        Ok(led) => Ok(led),
        Err(e) => Err(e.name),
    }
}

/// The first variable set twice, if any.
fn first_duplicate(env: &Vec<(String, String)>) -> (r: Option<String>)
    ensures
        match r {
            None => keys_distinct(env_view(Some(*env)).unwrap()),
            Some(k) => exists|a: int, b: int|
                0 <= a < b < env@.len() && env@[a].0@ == k@ && env@[b].0@ == k@,
        },
{
    let mut i: usize = 0;
    while i < env.len()
        invariant
            i <= env@.len(),
            forall|a: int, b: int| 0 <= a < b < env@.len() && a < i ==> env@[a].0@ != env@[b].0@,
        decreases env@.len() - i,
    {
        let mut j: usize = i + 1;
        while j < env.len()
            invariant
                i < env@.len(),
                i + 1 <= j <= env@.len(),
                forall|a: int, b: int| 0 <= a < b < env@.len() && a < i ==> env@[a].0@ != env@[b].0@,
                forall|b: int| i < b < j ==> env@[i as int].0@ != env@[b].0@,
            decreases env@.len() - j,
        {
            if env[i].0 == env[j].0 {
                let k = env[i].0.clone();
                assert(env@[i as int].0@ == k@ && env@[j as int].0@ == k@);
                return Some(k);
            }
            j = j + 1;
        }
        i = i + 1;
    }
    None
}

/// The first entry under `key`.
fn find<'a>(entries: &'a Vec<(String, Node)>, key: &str) -> (r: Option<&'a Node>)
    ensures
        match r {
            Some(n) => lookup(entries@, key@) == Some(*n),
            None => lookup(entries@, key@) is None,
        },
{
    let wanted = key.to_owned();
    let mut i: usize = 0;
    assert(entries@.skip(0) =~= entries@);
    while i < entries.len()
        invariant
            i <= entries@.len(),
            wanted@ == key@,
            lookup(entries@, key@) == lookup(entries@.skip(i as int), key@),
        decreases entries@.len() - i,
    {
        assert(entries@.skip(i as int)[0] == entries@[i as int]);
        assert(entries@.skip(i as int).drop_first() =~= entries@.skip(i + 1));
        if entries[i].0 == wanted {
            return Some(&entries[i].1);
        }
        i = i + 1;
    }
    None
}

/// The texts of array items, when every item is a string.
fn texts(items: &Vec<Node>) -> (r: Option<Vec<String>>)
    ensures
        match r {
            Some(v) => texts_of(items@) == Some(strings_view(v@)),
            None => texts_of(items@) is None,
        },
{
    let mut out: Vec<String> = Vec::new();
    let mut i: usize = 0;
    proof {
        assert(items@.skip(0) =~= items@);
        assert(strings_view(out@) =~= Seq::<Seq<char>>::empty());
        assert forall|ts: Seq<Seq<char>>| #[trigger] (Seq::<Seq<char>>::empty() + ts) =~= ts by {}
    }
    while i < items.len()
        invariant
            i <= items@.len(),
            texts_of(items@) == (match texts_of(items@.skip(i as int)) {
                Some(ts) => Some(strings_view(out@) + ts),
                None => None::<Seq<Seq<char>>>,
            }),
        decreases items@.len() - i,
    {
        assert(items@.skip(i as int)[0] == items@[i as int]);
        assert(items@.skip(i as int).drop_first() =~= items@.skip(i + 1));
        match &items[i] {
            Node::Text(s) => {
                let ghost before = strings_view(out@);
                out.push(s.clone());
                assert(strings_view(out@) =~= before.push(s@));
                assert forall|ts: Seq<Seq<char>>| #[trigger] (before + (seq![s@] + ts)) =~= strings_view(out@) + ts by {}
            },
            _ => return None,
        }
        i = i + 1;
    }
    assert(items@.skip(i as int) =~= Seq::<Node>::empty());
    assert(strings_view(out@) + Seq::<Seq<char>>::empty() =~= strings_view(out@));
    Some(out)
}

/// One task entry.
fn task(item: &Node) -> (r: Result<Task, ConfigError>)
    ensures
        match r {
            Ok(t) => task_of(*item) == Ok::<TaskView, Seq<char>>(t@),
            Err(ConfigError::Invalid(p)) => task_of(*item) == Err::<TaskView, Seq<char>>(p@),
            Err(_) => false,
        },
{
    let fields = match item {
        Node::Table(fields) => fields,
        _ => return Err(ConfigError::Invalid("tasks".to_owned())),
    };
    let cmd = match find(fields, "cmd") {
        Some(Node::Text(cmd)) => cmd.clone(),
        _ => return Err(ConfigError::Invalid("tasks.cmd".to_owned())),
    };
    let args = match find(fields, "args") {
        None => None,
        Some(Node::List(a)) => match texts(a) {
            Some(args) => Some(args),
            None => return Err(ConfigError::Invalid("tasks.args".to_owned())),
        },
        Some(_) => return Err(ConfigError::Invalid("tasks.args".to_owned())),
    };
    Ok(Task::from_parts(cmd, args))
}

/// The task entries in order.
fn tasks(items: &Vec<Node>) -> (r: Result<Vec<Task>, ConfigError>)
    ensures
        match r {
            Ok(ts) => tasks_of(items@) == Ok::<Seq<TaskView>, Seq<char>>(tasks_view(ts@)),
            Err(ConfigError::Invalid(p)) => tasks_of(items@) == Err::<Seq<TaskView>, Seq<char>>(p@),
            Err(_) => false,
        },
{
    let mut out: Vec<Task> = Vec::new();
    let mut i: usize = 0;
    proof {
        assert(items@.skip(0) =~= items@);
        assert(tasks_view(out@) =~= Seq::<TaskView>::empty());
        assert forall|ts: Seq<TaskView>| #[trigger] (Seq::<TaskView>::empty() + ts) =~= ts by {}
    }
    while i < items.len()
        invariant
            i <= items@.len(),
            tasks_of(items@) == (match tasks_of(items@.skip(i as int)) {
                Ok(ts) => Ok(tasks_view(out@) + ts),
                Err(p) => Err::<Seq<TaskView>, Seq<char>>(p),
            }),
        decreases items@.len() - i,
    {
        assert(items@.skip(i as int)[0] == items@[i as int]);
        assert(items@.skip(i as int).drop_first() =~= items@.skip(i + 1));
        match task(&items[i]) {
            Ok(t) => {
                let ghost before = tasks_view(out@);
                let ghost tv = t@;
                out.push(t);
                assert(tasks_view(out@) =~= before.push(tv));
                assert forall|ts: Seq<TaskView>| #[trigger] (before + (seq![tv] + ts)) =~= tasks_view(out@) + ts by {}
            },
            Err(e) => return Err(e),
        }
        i = i + 1;
    }
    assert(items@.skip(i as int) =~= Seq::<Node>::empty());
    assert(tasks_view(out@) + Seq::<TaskView>::empty() =~= tasks_view(out@));
    Ok(out)
}

/// The variables of the `env` table, when every value is a string.
fn variables(entries: &Vec<(String, Node)>) -> (r: Option<Vec<(String, String)>>)
    ensures
        match r {
            Some(v) => env_of(entries@) == env_view(Some(v)),
            None => env_of(entries@) is None,
        },
{
    let mut out: Vec<(String, String)> = Vec::new();
    let mut i: usize = 0;
    proof {
        assert(entries@.skip(0) =~= entries@);
        assert(env_view(Some(out)).unwrap() =~= Seq::<(Seq<char>, Seq<char>)>::empty());
        assert forall|vs: Seq<(Seq<char>, Seq<char>)>| #[trigger] (Seq::<(Seq<char>, Seq<char>)>::empty() + vs) =~= vs by {}
    }
    while i < entries.len()
        invariant
            i <= entries@.len(),
            env_of(entries@) == (match env_of(entries@.skip(i as int)) {
                Some(vs) => Some(env_view(Some(out)).unwrap() + vs),
                None => None::<Seq<(Seq<char>, Seq<char>)>>,
            }),
        decreases entries@.len() - i,
    {
        assert(entries@.skip(i as int)[0] == entries@[i as int]);
        assert(entries@.skip(i as int).drop_first() =~= entries@.skip(i + 1));
        match &entries[i].1 {
            Node::Text(v) => {
                let ghost before = env_view(Some(out)).unwrap();
                let pair = (entries[i].0.clone(), v.clone());
                let ghost pv = (pair.0@, pair.1@);
                out.push(pair);
                assert(env_view(Some(out)).unwrap() =~= before.push(pv));
                assert forall|vs: Seq<(Seq<char>, Seq<char>)>| #[trigger] (before + (seq![pv] + vs))
                    =~= env_view(Some(out)).unwrap() + vs by {}
            },
            _ => return None,
        }
        i = i + 1;
    }
    assert(entries@.skip(i as int) =~= Seq::<(String, Node)>::empty());
    assert(env_view(Some(out)).unwrap() + Seq::<(Seq<char>, Seq<char>)>::empty() =~= env_view(Some(out)).unwrap());
    Some(out)
}

/// Resolves the three color settings of a `colors` table.
fn color_names(colors: &Vec<(String, Node)>) -> (r: Result<(Vec<String>, String, String), ConfigError>)
    ensures
        match r {
            Ok((p, f, s)) => colors_of(colors@) == Ok::<(Seq<Seq<char>>, Seq<char>, Seq<char>), Seq<char>>(
                (strings_view(p@), f@, s@)),
            Err(ConfigError::Invalid(q)) => colors_of(colors@) == Err::<(Seq<Seq<char>>, Seq<char>, Seq<char>), Seq<char>>(q@),
            Err(_) => false,
        },
{
    let pending = match find(colors, "pending") {
        Some(Node::List(ps)) => match texts(ps) {
            Some(p) => p,
            None => return Err(ConfigError::Invalid("colors.pending".to_owned())),
        },
        _ => return Err(ConfigError::Invalid("colors.pending".to_owned())),
    };
    let failure = match find(colors, "failure") {
        Some(Node::Text(f)) => f.clone(),
        _ => return Err(ConfigError::Invalid("colors.failure".to_owned())),
    };
    let success = match find(colors, "success") {
        Some(Node::Text(s)) => s.clone(),
        _ => return Err(ConfigError::Invalid("colors.success".to_owned())),
    };
    Ok((pending, failure, success))
}

/// The optional `env` table of a document.
fn env_setting(root: &Vec<(String, Node)>) -> (r: Result<Option<Vec<(String, String)>>, ConfigError>)
    ensures
        match r {
            Ok(env) => env_field(root@) == Ok::<Option<Seq<(Seq<char>, Seq<char>)>>, Seq<char>>(env_view(env)),
            Err(ConfigError::Invalid(q)) => env_field(root@) == Err::<Option<Seq<(Seq<char>, Seq<char>)>>, Seq<char>>(q@),
            Err(_) => false,
        },
{
    match find(root, "env") {
        None => Ok(None),
        Some(Node::Table(e)) => match variables(e) {
            Some(vars) => Ok(Some(vars)),
            None => Err(ConfigError::Invalid("env".to_owned())),
        },
        Some(_) => Err(ConfigError::Invalid("env".to_owned())),
    }
}

impl Config {
    /// Builds a configuration from its settings, resolving the color names.
    /// It fails with `UnknownColor` when a name is outside the palette, else
    /// with `DuplicateVariable` when a variable is set twice.
    pub fn from_names(
        tasks: Vec<Task>,
        pending: Vec<String>,
        failure: String,
        success: String,
        env: Option<Vec<(String, String)>>,
    ) -> (r: Result<Config, ConfigError>)
        ensures
            names_result(r, tasks_view(tasks@), strings_view(pending@), failure@, success@, env_view(env)),
    {
        let pending_leds = match resolve_all(&pending) {
            Ok(leds) => leds,
            Err(n) => return Err(ConfigError::UnknownColor(n)),
        };
        let failure_led = match resolve_one(failure) {
            Ok(led) => led,
            Err(n) => return Err(ConfigError::UnknownColor(n)),
        };
        let success_led = match resolve_one(success) {
            Ok(led) => led,
            Err(n) => return Err(ConfigError::UnknownColor(n)),
        };
        match &env {
            Some(vars) => match first_duplicate(vars) {
                Some(k) => {
                    proof {
                        let (a, b) = choose|a: int, b: int|
                            0 <= a < b < vars@.len() && vars@[a].0@ == k@ && vars@[b].0@ == k@;
                        let e = env_view(env).unwrap();
                        assert(e[a].0 == k@ && e[b].0 == k@);
                    }
                    return Err(ConfigError::DuplicateVariable(k));
                },
                None => {},
            },
            None => {},
        }
        Ok(Config { tasks, colors: Colors::new(pending_leds, failure_led, success_led), env })
    }

    /// Reads a configuration from the entries of a TOML document's top-level
    /// table: a `tasks` array, a `colors` table with a `pending` array and
    /// `failure` and `success` names, and an optional `env` table. The first
    /// key missing or of the wrong kind gives `Invalid` with its path;
    /// otherwise the result is what `from_names` gives on the settings found.
    pub fn from_document(root: &Vec<(String, Node)>) -> (r: Result<Config, ConfigError>)
        ensures
            document_result(root@, r),
    {
        let items = match find(root, "tasks") {
            Some(Node::List(items)) => items,
            _ => return Err(ConfigError::Invalid("tasks".to_owned())),
        };
        let tasks = match tasks(items) {
            Ok(t) => t,
            Err(e) => return Err(e),
        };
        let colors = match find(root, "colors") {
            Some(Node::Table(c)) => c,
            _ => return Err(ConfigError::Invalid("colors".to_owned())),
        };
        let (pending, failure, success) = match color_names(colors) {
            Ok(names) => names,
            Err(e) => return Err(e),
        };
        let env = match env_setting(root) {
            Ok(env) => env,
            Err(e) => return Err(e),
        };
        Config::from_names(tasks, pending, failure, success, env)
    }

    /// Reads a configuration from TOML text: `Syntax` when the text is not a
    /// TOML document, else what `from_document` gives on it.
    pub fn read(text: &str) -> (r: Result<Config, ConfigError>)
        ensures
            text_result(text@, r),
    {
        match parse_document(text) {
            Ok(root) => Config::from_document(&root),
            Err(_) => Err(ConfigError::Syntax),
        }
    }

    /// The configuration from a file's text when there is a file, read as
    /// `read` does, else the built-in default.
    pub fn get(text: Option<&str>) -> (r: Result<Config, ConfigError>)
        ensures
            match text {
                Some(t) => text_result(t@, r),
                None => r matches Ok(c) && c@ == default_config(),
            },
    {
        match text {
            Some(t) => Config::read(t),
            None => Ok(Config::default()),
        }
    }

    /// The tasks, in the order they run.
    pub fn tasks(&self) -> (r: &Vec<Task>)
        ensures
            tasks_view(r@) == self@.tasks,
    {
        &self.tasks
    }

    /// The environment variables to set before the tasks run.
    pub fn env(&self) -> (r: &Option<Vec<(String, String)>>)
        ensures
            env_view(*r) == self@.env,
    {
        &self.env
    }

    /// The pending animation's colors.
    pub fn pending(&self) -> (r: &[Led])
        ensures
            r@ == self@.pending,
    {
        self.colors.pending()
    }

    /// The color shown after a failure.
    pub fn failure(&self) -> (r: &Led)
        ensures
            *r == self@.failure,
    {
        self.colors.failure()
    }

    /// The color shown after success.
    pub fn success(&self) -> (r: &Led)
        ensures
            *r == self@.success,
    {
        self.colors.success()
    }
}

/// The built-in configuration: `cargo check` then `cargo test`, blue and
/// blank while pending, red for failure, green for success, and no
/// environment variables.
pub open spec fn default_config() -> ConfigView {
    ConfigView {
        tasks: seq![
            TaskView { cmd: "cargo"@, args: Some(seq!["check"@]) },
            TaskView { cmd: "cargo"@, args: Some(seq!["test"@]) },
        ],
        pending: seq![Led::Blue, Led::Blank],
        failure: Led::Red,
        success: Led::Green,
        env: Some(Seq::empty()),
    }
}

impl Default for Config {
    fn default() -> (r: Config)
        ensures
            r@ == default_config(),
    {
        let check: Vec<&str> = vec!["check"];
        let test: Vec<&str> = vec!["test"];
        let first = Task::new("cargo", check.as_slice());
        let second = Task::new("cargo", test.as_slice());
        assert(strs_view(check@) =~= seq!["check"@]);
        assert(strs_view(test@) =~= seq!["test"@]);
        let tasks: Vec<Task> = vec![first, second];
        let pending: Vec<Led> = vec![Led::Blue, Led::Blank];
        let env: Vec<(String, String)> = Vec::new();
        let r = Config { tasks, colors: Colors::new(pending, Led::Red, Led::Green), env: Some(env) };
        assert(tasks_view(r.tasks@) =~= default_config().tasks);
        assert(r.colors.pending_spec() =~= default_config().pending);
        assert(env_view(r.env).unwrap() =~= Seq::<(Seq<char>, Seq<char>)>::empty());
        r
    }
}

} // verus!
