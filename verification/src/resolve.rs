//! Builder resolution: given what a path turned out to be (a directory with
//! its entry names, a plain file, or nothing), either accept an explicit tool
//! override or scan the entries for the first marker in catalog order, and
//! produce the resolved `Builder`.

use vstd::prelude::*;

use crate::catalog::Builders;
use crate::catalog::catalog;
use crate::catalog::recipes;
use crate::command::BuilderCmd;
use crate::command::Verb;
use crate::command::spec_build_args;
use crate::command::spec_run_args;
use crate::command::spec_test_args;
use crate::command::spec_tool_name;

verus! {

/// What a caller found the requested path to be.  Resolution itself never
/// touches the file system: the caller probes the path once and hands the
/// result over as plain values.  For a directory, `Dir` carries the names of
/// the entries directly inside it (subdirectories are never scanned).
#[derive(Debug, Clone)]
pub enum PathStatus {
    /// The path does not exist.
    Missing,
    /// The path exists but is not a directory.
    IsFile,
    /// The path is a directory holding entries with these names.
    Dir(Vec<String>),
}

/// Why resolution produced no builder.
#[derive(Debug, Eq, PartialEq, Structural, Copy, Clone)]
pub enum ResolveError {
    /// The requested path is missing or is not a directory.
    NotADirectory,
    /// The directory holds no recognized marker and no override was given.
    NotFound,
}

impl ResolveError {
    /// The message to show a caller on standard error.
    pub fn message(&self) -> (r: String)
        ensures
            *self is NotADirectory ==> r@ == "the requested path is not a directory"@,
            *self is NotFound ==> r@ == "no supported build tool found here"@,
    {
        match self {
            ResolveError::NotADirectory => String::from_str(
                "the requested path is not a directory",
            ),
            ResolveError::NotFound => String::from_str("no supported build tool found here"),
        }
    }

    /// The process exit code that signals "no tool resolved": distinct from
    /// every mirrored child status of a run that did execute.
    pub fn exit_code(&self) -> (r: i32)
        ensures
            r == 2,
    {
        2
    }
}

/// The resolved unit of work: a working directory paired with the command
/// template of the tool that owns it.
#[derive(Debug, Clone)]
pub struct Builder {
    pub pwd: String,
    pub cmd: BuilderCmd,
}

/// The first rule of `rules`, in order, whose marker filename occurs in
/// `entries`; `None` when no marker matches.
pub open spec fn spec_first_match(
    entries: Seq<Seq<char>>,
    rules: Seq<(Seq<char>, Builders)>,
) -> Option<Builders>
    decreases rules.len(),
{
    if rules.len() == 0 {
        None
    } else if entries.contains(rules[0].0) {
        Some(rules[0].1)
    } else {
        spec_first_match(entries, rules.drop_first())
    }
}

/// What `find` returns: the tool of the earliest catalog marker present in a
/// directory's entries, `NotADirectory` for a path that is not a directory,
/// `NotFound` for a directory without any recognized marker.
pub open spec fn spec_find(status: PathStatus) -> Result<Builders, ResolveError> {
    match status {
        PathStatus::Dir(entries) => match spec_first_match(entries.deep_view(), catalog()) {
            Some(b) => Ok(b),
            None => Err(ResolveError::NotFound),
        },
        _ => Err(ResolveError::NotADirectory),
    }
}

/// Whether `entries` holds a word equal to `name`.
fn contains_word(entries: &Vec<String>, name: &String) -> (r: bool)
    ensures
        r == entries.deep_view().contains(name@),
{
    let mut i: usize = 0;
    while i < entries.len()
        invariant
            i <= entries.len(),
            forall|j: int| 0 <= j < i ==> entries.deep_view()[j] != name@,
        decreases entries.len() - i,
    {
        if entries[i] == *name {
            proof {
                assert(entries.deep_view()[i as int] == entries@[i as int]@);
            }
            return true;
        }
        i = i + 1;
    }
    false
}

/// Skipping rules whose markers are all absent does not change the first
/// match.
proof fn lemma_first_match_skip(
    entries: Seq<Seq<char>>,
    rules: Seq<(Seq<char>, Builders)>,
    i: int,
)
    requires
        0 <= i <= rules.len(),
        forall|j: int| 0 <= j < i ==> !entries.contains(#[trigger] rules[j].0),
    ensures
        spec_first_match(entries, rules) == spec_first_match(entries, rules.skip(i)),
    decreases i,
{
    if i == 0 {
        assert(rules.skip(0) =~= rules);
    } else {
        assert(!entries.contains(rules[0].0));
        lemma_first_match_skip(entries, rules.drop_first(), i - 1);
        assert(rules.drop_first().skip(i - 1) =~= rules.skip(i));
    }
}

/// Scans the path for the owning build tool: on a directory, the first rule
/// in catalog order whose marker filename is present among the entries wins;
/// a path that is not a directory never matches, whatever its entries'
/// siblings are named.
pub fn find(status: &PathStatus) -> (r: Result<Builders, ResolveError>)
    ensures
        r == spec_find(*status),
{
    match status {
        PathStatus::Dir(entries) => {
            let rules = recipes();
            let mut i: usize = 0;
            while i < rules.len()
                invariant
                    *status is Dir && (*status)->Dir_0 == *entries,
                    rules@.len() == catalog().len(),
                    forall|j: int|
                        0 <= j < rules@.len() ==> (#[trigger] rules@[j]).0@ == catalog()[j].0
                            && rules@[j].1 == catalog()[j].1,
                    i <= rules.len(),
                    forall|j: int|
                        0 <= j < i ==> !entries.deep_view().contains(
                            (#[trigger] catalog()[j]).0,
                        ),
                decreases rules.len() - i,
            {
                if contains_word(entries, &rules[i].0) {
                    proof {
                        lemma_first_match_skip(entries.deep_view(), catalog(), i as int);
                        assert(catalog().skip(i as int)[0] == catalog()[i as int]);
                        assert(spec_first_match(entries.deep_view(), catalog()) == Some(
                            catalog()[i as int].1,
                        ));
                        assert(rules@[i as int].1 == catalog()[i as int].1);
                        assert(spec_find(*status) == Result::<Builders, ResolveError>::Ok(
                            catalog()[i as int].1,
                        ));
                    }
                    return Ok(rules[i].1);
                }
                i = i + 1;
            }
            proof {
                lemma_first_match_skip(entries.deep_view(), catalog(), catalog().len() as int);
                assert(catalog().skip(catalog().len() as int).len() == 0);
            }
            Err(ResolveError::NotFound)
        },
        _ => Err(ResolveError::NotADirectory),
    }
}

impl Builder {
    /// Whether this builder is the canonical one for `tool`, working in the
    /// directory named `pwd`.
    pub open spec fn spec_is_for(&self, pwd: Seq<char>, tool: Builders) -> bool {
        &&& self.pwd@ == pwd
        &&& self.cmd.spec_name() == spec_tool_name(tool)
        &&& self.cmd.spec_run() == spec_run_args(tool)
        &&& self.cmd.spec_test() == spec_test_args(tool)
        &&& self.cmd.spec_build() == spec_build_args(tool)
    }

    /// A builder working in `pwd` with the command template `cmd`.
    pub fn new(pwd: String, cmd: BuilderCmd) -> (r: Self)
        ensures
            r.pwd == pwd,
            r.cmd == cmd,
    {
        Builder { pwd, cmd }
    }

    /// The executable name of the resolved tool.
    pub fn cmd(&self) -> (r: String)
        ensures
            r@ == self.cmd.spec_name(),
    {
        self.cmd.name()
    }

    /// The argument vector for the `run` verb.
    pub fn run(&self) -> (r: Vec<String>)
        ensures
            r.deep_view() == self.cmd.spec_run(),
    {
        self.cmd.run()
    }

    /// The argument vector for the `test` verb.
    pub fn test(&self) -> (r: Vec<String>)
        ensures
            r.deep_view() == self.cmd.spec_test(),
    {
        self.cmd.test()
    }

    /// The argument vector for the `build` verb.
    pub fn build(&self) -> (r: Vec<String>)
        ensures
            r.deep_view() == self.cmd.spec_build(),
    {
        self.cmd.build()
    }

    /// The working directory the tool will be launched in.
    pub fn pwd(&self) -> (r: String)
        ensures
            r@ == self.pwd@,
    {
        self.pwd.clone()
    }

    /// The argument vector this builder assigns to `verb`.
    pub open spec fn spec_args(&self, verb: Verb) -> Seq<Seq<char>> {
        match verb {
            Verb::Build => self.cmd.spec_build(),
            Verb::Run => self.cmd.spec_run(),
            Verb::Test => self.cmd.spec_test(),
        }
    }

    /// Selects the argument vector for `verb` from the command template.
    pub fn args_for(&self, verb: Verb) -> (r: Vec<String>)
        ensures
            r.deep_view() == self.spec_args(verb),
    {
        match verb {
            Verb::Build => self.cmd.build(),
            Verb::Run => self.cmd.run(),
            Verb::Test => self.cmd.test(),
        }
    }
}

/// Resolves a directory to its builder by marker scanning alone: the working
/// directory is kept and the matched tool's canonical template is attached.
pub fn discover(pwd: String, status: &PathStatus) -> (r: Result<Builder, ResolveError>)
    ensures
        match spec_find(*status) {
            Ok(t) => r matches Ok(b) && b.spec_is_for(pwd@, t),
            Err(e) => r == Result::<Builder, ResolveError>::Err(e),
        },
{
    match find(status) {
        Ok(t) => Ok(Builder::new(pwd, BuilderCmd::from(t))),
        Err(e) => Err(e),
    }
}

/// Resolves a directory to its builder.  The path must be a directory; then
/// an explicit override wins outright — marker scanning is bypassed entirely,
/// even when the directory is empty — and otherwise the first marker in
/// catalog order decides, or `NotFound` when none is present.
pub fn resolve(pwd: String, status: &PathStatus, target: Option<Builders>) -> (r: Result<
    Builder,
    ResolveError,
>)
    ensures
        !(*status is Dir) ==> r == Result::<Builder, ResolveError>::Err(ResolveError::NotADirectory),
        *status is Dir ==> (target matches Some(t) ==> (r matches Ok(b) && b.spec_is_for(
            pwd@,
            t,
        ))),
        *status is Dir && target is None ==> match spec_find(*status) {
            Ok(t) => r matches Ok(b) && b.spec_is_for(pwd@, t),
            Err(e) => r == Result::<Builder, ResolveError>::Err(e),
        },
{
    match status {
        PathStatus::Dir(_) => match target {
            Some(t) => Ok(Builder::new(pwd, BuilderCmd::from(t))),
            None => discover(pwd, status),
        },
        _ => Err(ResolveError::NotADirectory),
    }
}

/// A directory holding the marker of exactly one catalog rule resolves to
/// that rule's tool, whatever other unrecognized entries are present.
pub proof fn lemma_single_marker_resolves(entries: Vec<String>, k: int)
    requires
        0 <= k < catalog().len(),
        entries.deep_view().contains(catalog()[k].0),
        forall|j: int|
            0 <= j < catalog().len() && j != k ==> !entries.deep_view().contains(
                #[trigger] catalog()[j].0,
            ),
    ensures
        spec_find(PathStatus::Dir(entries)) == Result::<Builders, ResolveError>::Ok(
            catalog()[k].1,
        ),
{
    lemma_earliest_marker_wins(entries, k);
}

/// When two or more catalog markers coexist in one directory, the rule
/// declared earliest in the catalog wins: whichever rule `k` has its marker
/// present while every earlier rule's marker is absent decides the tool.
pub proof fn lemma_earliest_marker_wins(entries: Vec<String>, k: int)
    requires
        0 <= k < catalog().len(),
        entries.deep_view().contains(catalog()[k].0),
        forall|j: int| 0 <= j < k ==> !entries.deep_view().contains(#[trigger] catalog()[j].0),
    ensures
        spec_find(PathStatus::Dir(entries)) == Result::<Builders, ResolveError>::Ok(
            catalog()[k].1,
        ),
{
    lemma_first_match_skip(entries.deep_view(), catalog(), k);
    assert(catalog().skip(k)[0] == catalog()[k]);
}

/// A path that is a file, or that does not exist, always resolves to
/// `NotADirectory` — never to a tool, even when the file itself is named
/// like a marker.
pub proof fn lemma_non_directory_never_matches(status: PathStatus)
    requires
        !(status is Dir),
    ensures
        spec_find(status) == Result::<Builders, ResolveError>::Err(ResolveError::NotADirectory),
{
}

/// A directory holding no recognized marker at all resolves to `NotFound`.
pub proof fn lemma_no_marker_not_found(entries: Vec<String>)
    requires
        forall|j: int|
            0 <= j < catalog().len() ==> !entries.deep_view().contains(#[trigger] catalog()[j].0),
    ensures
        spec_find(PathStatus::Dir(entries)) == Result::<Builders, ResolveError>::Err(
            ResolveError::NotFound,
        ),
{
    lemma_first_match_skip(entries.deep_view(), catalog(), catalog().len() as int);
    assert(catalog().skip(catalog().len() as int).len() == 0);
}

} // verus!
