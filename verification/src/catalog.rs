//! The tool catalog: the closed set of supported build tools and the ordered
//! table pairing each marker filename with the tool that owns it.  Order is
//! priority: when several markers coexist in one directory, the rule declared
//! first wins.

use vstd::prelude::*;

verus! {

/// The closed set of build tools this dispatcher knows how to drive.
#[derive(Debug, Eq, PartialEq, Structural, Copy, Clone)]
pub enum Builders {
    Make,
    Task,
    Earthly,
    Mix,
    Cargo,
    Go,
    DockerCompose,
    Docker,
}

/// The ordered catalog of marker rules: each pairs a marker filename with the
/// tool it identifies.  The sequence order encodes resolution priority.
pub open spec fn catalog() -> Seq<(Seq<char>, Builders)> {
    seq![
        ("Makefile"@, Builders::Make),
        ("Taskfile.yml"@, Builders::Task),
        ("Earthfile"@, Builders::Earthly),
        ("mix.exs"@, Builders::Mix),
        ("Cargo.toml"@, Builders::Cargo),
        ("go.mod"@, Builders::Go),
        ("Dockerfile"@, Builders::Docker),
        ("docker-compose.yml"@, Builders::DockerCompose),
    ]
}

/// The tool of the first rule whose marker filename equals `name`; `None`
/// when no rule carries that filename.  Since marker filenames are unique in
/// the catalog (`lemma_catalog_markers_unique`), at most one rule can match.
pub open spec fn spec_lookup(name: Seq<char>, rules: Seq<(Seq<char>, Builders)>) -> Option<
    Builders,
>
    decreases rules.len(),
{
    if rules.len() == 0 {
        None
    } else if rules[0].0 == name {
        Some(rules[0].1)
    } else {
        spec_lookup(name, rules.drop_first())
    }
}

/// The catalog as runtime data, in its declared order.
pub fn recipes() -> (r: Vec<(String, Builders)>)
    ensures
        r@.len() == catalog().len(),
        forall|i: int|
            0 <= i < r@.len() ==> (#[trigger] r@[i]).0@ == catalog()[i].0 && r@[i].1
                == catalog()[i].1,
{
    let mut r: Vec<(String, Builders)> = Vec::new();
    r.push((String::from_str("Makefile"), Builders::Make));
    r.push((String::from_str("Taskfile.yml"), Builders::Task));
    r.push((String::from_str("Earthfile"), Builders::Earthly));
    r.push((String::from_str("mix.exs"), Builders::Mix));
    r.push((String::from_str("Cargo.toml"), Builders::Cargo));
    r.push((String::from_str("go.mod"), Builders::Go));
    r.push((String::from_str("Dockerfile"), Builders::Docker));
    r.push((String::from_str("docker-compose.yml"), Builders::DockerCompose));
    r
}

/// Skipping rules whose marker filenames all differ from `name` does not
/// change the lookup result.
proof fn lemma_lookup_skip(name: Seq<char>, rules: Seq<(Seq<char>, Builders)>, i: int)
    requires
        0 <= i <= rules.len(),
        forall|j: int| 0 <= j < i ==> (#[trigger] rules[j]).0 != name,
    ensures
        spec_lookup(name, rules) == spec_lookup(name, rules.skip(i)),
    decreases i,
{
    if i == 0 {
        assert(rules.skip(0) =~= rules);
    } else {
        lemma_lookup_skip(name, rules.drop_first(), i - 1);
        assert(rules.drop_first().skip(i - 1) =~= rules.skip(i));
    }
}

/// The tool owning the marker filename `name`, per the catalog.
pub fn lookup(name: &String) -> (r: Option<Builders>)
    ensures
        r == spec_lookup(name@, catalog()),
{
    let rules = recipes();
    let mut i: usize = 0;
    while i < rules.len()
        invariant
            rules@.len() == catalog().len(),
            forall|j: int|
                0 <= j < rules@.len() ==> (#[trigger] rules@[j]).0@ == catalog()[j].0 && rules@[j].1
                    == catalog()[j].1,
            i <= rules.len(),
            forall|j: int| 0 <= j < i ==> (#[trigger] catalog()[j]).0 != name@,
        decreases rules.len() - i,
    {
        if rules[i].0 == *name {
            proof {
                lemma_lookup_skip(name@, catalog(), i as int);
                assert(catalog().skip(i as int)[0] == catalog()[i as int]);
            }
            return Some(rules[i].1);
        }
        i = i + 1;
    }
    proof {
        lemma_lookup_skip(name@, catalog(), catalog().len() as int);
        assert(catalog().skip(catalog().len() as int).len() == 0);
    }
    None
}

/// Each marker filename occurs in exactly one catalog rule: two distinct
/// rules always carry distinct marker filenames.
pub proof fn lemma_catalog_markers_unique(i: int, j: int)
    requires
        0 <= i < catalog().len(),
        0 <= j < catalog().len(),
        i != j,
    ensures
        catalog()[i].0 != catalog()[j].0,
{
    reveal_strlit("Makefile");
    reveal_strlit("Taskfile.yml");
    reveal_strlit("Earthfile");
    reveal_strlit("mix.exs");
    reveal_strlit("Cargo.toml");
    reveal_strlit("go.mod");
    reveal_strlit("Dockerfile");
    reveal_strlit("docker-compose.yml");
    assert("Makefile"@.len() == 8);
    assert("Taskfile.yml"@.len() == 12);
    assert("Earthfile"@.len() == 9);
    assert("mix.exs"@.len() == 7);
    assert("Cargo.toml"@.len() == 10);
    assert("go.mod"@.len() == 6);
    assert("Dockerfile"@.len() == 10);
    assert("docker-compose.yml"@.len() == 18);
    assert("Makefile"@ != "Taskfile.yml"@);
    assert("Makefile"@ != "Earthfile"@);
    assert("Makefile"@ != "mix.exs"@);
    assert("Makefile"@ != "Cargo.toml"@);
    assert("Makefile"@ != "go.mod"@);
    assert("Makefile"@ != "Dockerfile"@);
    assert("Makefile"@ != "docker-compose.yml"@);
    assert("Taskfile.yml"@ != "Earthfile"@);
    assert("Taskfile.yml"@ != "mix.exs"@);
    assert("Taskfile.yml"@ != "Cargo.toml"@);
    assert("Taskfile.yml"@ != "go.mod"@);
    assert("Taskfile.yml"@ != "Dockerfile"@);
    assert("Taskfile.yml"@ != "docker-compose.yml"@);
    assert("Earthfile"@ != "mix.exs"@);
    assert("Earthfile"@ != "Cargo.toml"@);
    assert("Earthfile"@ != "go.mod"@);
    assert("Earthfile"@ != "Dockerfile"@);
    assert("Earthfile"@ != "docker-compose.yml"@);
    assert("mix.exs"@ != "Cargo.toml"@);
    assert("mix.exs"@ != "go.mod"@);
    assert("mix.exs"@ != "Dockerfile"@);
    assert("mix.exs"@ != "docker-compose.yml"@);
    assert("Cargo.toml"@ != "go.mod"@);
    assert("Cargo.toml"@[0] != "Dockerfile"@[0]);
    assert("Cargo.toml"@ != "Dockerfile"@);
    assert("Cargo.toml"@ != "docker-compose.yml"@);
    assert("go.mod"@ != "Dockerfile"@);
    assert("go.mod"@ != "docker-compose.yml"@);
    assert("Dockerfile"@ != "docker-compose.yml"@);
}

} // verus!
