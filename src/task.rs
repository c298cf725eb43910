//! A task: a command and its arguments, run in order by the driver.
use vstd::prelude::*;

verus! {

/// A task as a mathematical value: the command and, when given, its arguments.
pub struct TaskView {
    pub cmd: Seq<char>,
    pub args: Option<Seq<Seq<char>>>,
}

/// The views of a list of strings.
pub open spec fn strings_view(v: Seq<String>) -> Seq<Seq<char>> {
    v.map_values(|s: String| s@)
}

/// The views of a list of string slices.
pub open spec fn strs_view(v: Seq<&str>) -> Seq<Seq<char>> {
    v.map_values(|s: &str| s@)
}

/// A command to run, with optional arguments.
#[derive(Debug)]
pub struct Task {
    cmd: String,
    args: Option<Vec<String>>,
}

impl View for Task {
    type V = TaskView;

    closed spec fn view(&self) -> TaskView {
        TaskView {
            cmd: self.cmd@,
            args: match self.args {
                Some(v) => Some(strings_view(v@)),
                None => None,
            },
        }
    }
}

/// Copies a list of strings.
fn copy_strings(v: &Vec<String>) -> (r: Vec<String>)
    ensures
        strings_view(r@) == strings_view(v@),
{
    let mut r: Vec<String> = Vec::new();
    let mut i: usize = 0;
    while i < v.len()
        invariant
            i <= v@.len(),
            r@.len() == i,
            forall|k: int| 0 <= k < i ==> r@[k]@ == v@[k]@,
        decreases v@.len() - i,
    {
        let s: String = v[i].clone();
        r.push(s);
        i = i + 1;
    }
    assert(strings_view(r@) =~= strings_view(v@));
    r
}

impl Task {
    /// A task running `cmd` with `args`.
    pub fn new(cmd: &str, args: &[&str]) -> (r: Task)
        ensures
            r@ == (TaskView { cmd: cmd@, args: Some(strs_view(args@)) }),
    {
        let mut owned: Vec<String> = Vec::new();
        let mut i: usize = 0;
        while i < args.len()
            invariant
                i <= args@.len(),
                owned@.len() == i,
                forall|k: int| 0 <= k < i ==> owned@[k]@ == args@[k]@,
            decreases args@.len() - i,
        {
            owned.push(args[i].to_owned());
            i = i + 1;
        }
        assert(strings_view(owned@) =~= strs_view(args@));
        Task { cmd: cmd.to_owned(), args: Some(owned) }
    }

    /// A task from an owned command and optional arguments.
    pub fn from_parts(cmd: String, args: Option<Vec<String>>) -> (r: Task)
        ensures
            r@.cmd == cmd@,
            r@.args == (match args {
                Some(v) => Some(strings_view(v@)),
                None => None::<Seq<Seq<char>>>,
            }),
    {
        Task { cmd, args }
    }

    /// The command.
    pub fn command(&self) -> (r: &str)
        ensures
            r@ == self@.cmd,
    {
        self.cmd.as_str()
    }

    /// The arguments; none given means an empty list.
    pub fn args(&self) -> (r: Vec<String>)
        ensures
            strings_view(r@) == (match self@.args {
                Some(a) => a,
                None => Seq::<Seq<char>>::empty(),
            }),
    {
        match &self.args {
            Some(v) => copy_strings(v),
            None => {
                let r: Vec<String> = Vec::new();
                assert(strings_view(r@) =~= Seq::<Seq<char>>::empty());
                r
            },
        }
    }
}

} // verus!
