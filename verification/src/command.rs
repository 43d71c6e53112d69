//! Command templates: for each tool, the executable name and the three
//! ordered argument vectors (one per verb) that are handed to it positionally.

use vstd::prelude::*;

use crate::catalog::Builders;

verus! {

/// The three normalized actions this dispatcher exposes uniformly across
/// heterogeneous underlying tools.
#[derive(Debug, Eq, PartialEq, Structural, Copy, Clone)]
pub enum Verb {
    Build,
    Run,
    Test,
}

/// A tool's command template: its executable name plus one ordered argument
/// vector per verb.  Each vector is passed positionally to the tool, never
/// concatenated into a shell string.
#[derive(Clone, Debug)]
pub struct BuilderCmd {
    pub name: String,
    pub run: Vec<String>,
    pub test: Vec<String>,
    pub build: Vec<String>,
}

/// The executable name of a tool's template.
pub open spec fn spec_tool_name(b: Builders) -> Seq<char> {
    match b {
        Builders::Make => "make"@,
        Builders::Task => "task"@,
        Builders::Earthly => "earthly"@,
        Builders::Mix => "mix"@,
        Builders::Cargo => "cargo"@,
        Builders::Go => "go"@,
        Builders::DockerCompose => "docker-compose"@,
        Builders::Docker => "docker"@,
    }
}

/// The argument vector a tool's template assigns to the `run` verb.
pub open spec fn spec_run_args(b: Builders) -> Seq<Seq<char>> {
    match b {
        Builders::Earthly => seq!["+run"@],
        Builders::Go => seq!["run"@, "./..."@],
        _ => seq!["run"@],
    }
}

/// The argument vector a tool's template assigns to the `test` verb.
pub open spec fn spec_test_args(b: Builders) -> Seq<Seq<char>> {
    match b {
        Builders::Earthly => seq!["+test"@],
        Builders::Go => seq!["test"@, "./..."@],
        _ => seq!["test"@],
    }
}

/// The argument vector a tool's template assigns to the `build` verb.
pub open spec fn spec_build_args(b: Builders) -> Seq<Seq<char>> {
    match b {
        Builders::Earthly => seq!["+build"@],
        Builders::Go => seq!["build"@, "./..."@],
        _ => seq!["build"@],
    }
}

impl BuilderCmd {
    /// The executable name, as a mathematical value.
    pub open spec fn spec_name(&self) -> Seq<char> {
        self.name@
    }

    /// The `run` argument vector, as a sequence of words.
    pub open spec fn spec_run(&self) -> Seq<Seq<char>> {
        self.run.deep_view()
    }

    /// The `test` argument vector, as a sequence of words.
    pub open spec fn spec_test(&self) -> Seq<Seq<char>> {
        self.test.deep_view()
    }

    /// The `build` argument vector, as a sequence of words.
    pub open spec fn spec_build(&self) -> Seq<Seq<char>> {
        self.build.deep_view()
    }

    /// A template with the given executable name and the given three argument
    /// vectors.
    pub fn create(name: &str, run: Vec<String>, test: Vec<String>, build: Vec<String>) -> (r: Self)
        ensures
            r.spec_name() == name@,
            r.spec_run() == run.deep_view(),
            r.spec_test() == test.deep_view(),
            r.spec_build() == build.deep_view(),
    {
        BuilderCmd { name: String::from_str(name), run, test, build }
    }

    /// A template with the given executable name and empty argument vectors.
    pub fn new(name: &str) -> (r: Self)
        ensures
            r.spec_name() == name@,
            r.spec_run() == Seq::<Seq<char>>::empty(),
            r.spec_test() == Seq::<Seq<char>>::empty(),
            r.spec_build() == Seq::<Seq<char>>::empty(),
    {
        let r = Self::create(name, Vec::new(), Vec::new(), Vec::new());
        proof {
            assert(r.spec_run() =~= Seq::<Seq<char>>::empty());
            assert(r.spec_test() =~= Seq::<Seq<char>>::empty());
            assert(r.spec_build() =~= Seq::<Seq<char>>::empty());
        }
        r
    }

    /// A template for a tool that takes each verb as its own single argument:
    /// `run`, `test`, `build`.
    pub fn builder(name: &str) -> (r: Self)
        ensures
            r.spec_name() == name@,
            r.spec_run() == seq!["run"@],
            r.spec_test() == seq!["test"@],
            r.spec_build() == seq!["build"@],
    {
        Self::new(name).run_arg("run").test_arg("test").build_arg("build")
    }

    /// Appends one word to the `run` argument vector.
    pub fn run_arg(self, arg: &str) -> (r: Self)
        ensures
            r.spec_name() == self.spec_name(),
            r.spec_run() == self.spec_run().push(arg@),
            r.spec_test() == self.spec_test(),
            r.spec_build() == self.spec_build(),
    {
        let mut s = self;
        s.run.push(String::from_str(arg));
        proof {
            assert(s.spec_run() =~= self.spec_run().push(arg@));
        }
        s
    }

    /// Appends one word to the `test` argument vector.
    pub fn test_arg(self, arg: &str) -> (r: Self)
        ensures
            r.spec_name() == self.spec_name(),
            r.spec_run() == self.spec_run(),
            r.spec_test() == self.spec_test().push(arg@),
            r.spec_build() == self.spec_build(),
    {
        let mut s = self;
        s.test.push(String::from_str(arg));
        proof {
            assert(s.spec_test() =~= self.spec_test().push(arg@));
        }
        s
    }

    /// Appends one word to the `build` argument vector.
    pub fn build_arg(self, arg: &str) -> (r: Self)
        ensures
            r.spec_name() == self.spec_name(),
            r.spec_run() == self.spec_run(),
            r.spec_test() == self.spec_test(),
            r.spec_build() == self.spec_build().push(arg@),
    {
        let mut s = self;
        s.build.push(String::from_str(arg));
        proof {
            assert(s.spec_build() =~= self.spec_build().push(arg@));
        }
        s
    }

    /// The canonical template of the given tool.  Most tools take the bare
    /// verb as their single argument; Earthly prefixes it with `+`, and Go
    /// needs a trailing `./...` after the verb.
    pub fn from(builder: Builders) -> (r: Self)
        ensures
            r.spec_name() == spec_tool_name(builder),
            r.spec_run() == spec_run_args(builder),
            r.spec_test() == spec_test_args(builder),
            r.spec_build() == spec_build_args(builder),
    {
        match builder {
            Builders::Make => BuilderCmd::builder("make"),
            Builders::Task => BuilderCmd::builder("task"),
            Builders::Earthly => BuilderCmd::new("earthly")
                .run_arg("+run")
                .test_arg("+test")
                .build_arg("+build"),
            Builders::Mix => BuilderCmd::builder("mix"),
            Builders::Cargo => BuilderCmd::builder("cargo"),
            Builders::Go => BuilderCmd::new("go")
                .run_arg("run")
                .run_arg("./...")
                .test_arg("test")
                .test_arg("./...")
                .build_arg("build")
                .build_arg("./..."),
            Builders::DockerCompose => BuilderCmd::builder("docker-compose"),
            Builders::Docker => BuilderCmd::builder("docker"),
        }
    }

    /// A copy of the `run` argument vector.
    pub fn run(&self) -> (r: Vec<String>)
        ensures
            r.deep_view() == self.spec_run(),
    {
        clone_words(&self.run)
    }

    /// A copy of the `test` argument vector.
    pub fn test(&self) -> (r: Vec<String>)
        ensures
            r.deep_view() == self.spec_test(),
    {
        clone_words(&self.test)
    }

    /// A copy of the `build` argument vector.
    pub fn build(&self) -> (r: Vec<String>)
        ensures
            r.deep_view() == self.spec_build(),
    {
        clone_words(&self.build)
    }

    /// A copy of the executable name.
    pub fn name(&self) -> (r: String)
        ensures
            r@ == self.spec_name(),
    {
        self.name.clone()
    }
}

/// A copy of a word vector, word for word.
pub fn clone_words(v: &Vec<String>) -> (r: Vec<String>)
    ensures
        r.deep_view() == v.deep_view(),
{
    let mut r: Vec<String> = Vec::new();
    let mut i: usize = 0;
    while i < v.len()
        invariant
            i <= v.len(),
            r@.len() == i,
            forall|j: int| 0 <= j < i ==> #[trigger] r@[j]@ == v@[j]@,
        decreases v.len() - i,
    {
        r.push(v[i].clone());
        i = i + 1;
    }
    proof {
        assert(r.deep_view() =~= v.deep_view());
    }
    r
}

} // verus!
