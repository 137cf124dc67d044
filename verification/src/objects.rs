//! The objects that coverage is measured in: what cargo and the doc tests have built.

use vstd::prelude::*;

use crate::text;

verus! {

/// How cargo built an artifact.
#[derive(Debug)]
pub struct Profile {
    /// Whether it was built for testing.
    pub test: bool,
}

/// A message of cargo about what it has built. Other messages have no profile and no files.
#[derive(Debug)]
pub struct Artifact {
    pub profile: Option<Profile>,
    pub filenames: Vec<String>,
}

/// A file in the place of a doc test's executable.
#[derive(Debug)]
pub struct Candidate {
    pub path: Vec<u8>,
    pub executable: bool,
}

/// A line that holds a message.
pub open spec fn holds_message() -> spec_fn(Seq<char>) -> bool {
    |line: Seq<char>| line.len() > 0
}

/// The messages in cargo's output: the lines that are not empty.
pub open spec fn messages_of(output: Seq<char>) -> Seq<Seq<char>> {
    text::lines_of(output).filter(holds_message())
}

/// The messages in cargo's output, one to a line.
pub fn messages(output: &str) -> (list: Vec<String>)
    ensures
        text::texts(list@) == messages_of(output@),
{
    let lines: Vec<String> = text::lines(output);
    let ghost all = text::lines_of(output@);
    let mut list: Vec<String> = Vec::new();
    let mut i: usize = 0;
    proof {
        reveal(Seq::filter);
        assert(text::texts(list@) =~= all.take(0).filter(holds_message()));
    }
    while i < lines.len()
        invariant
            text::texts(lines@) == all,
            i <= lines@.len(),
            text::texts(list@) == all.take(i as int).filter(holds_message()),
        decreases lines@.len() - i,
    {
        let ghost line = all[i as int];
        let ghost before = list@;
        assert(line == lines@[i as int]@);
        if !lines[i].as_str().is_empty() {
            let line: String = lines[i].clone();
            proof {
                text::lemma_texts_push(before, line);
            }
            list.push(line);
        }
        proof {
            assert(all.take(i + 1) =~= all.take(i as int).push(line));
            all.take(i as int).lemma_filter_push(line, holds_message());
        }
        i += 1;
    }
    assert(all.take(i as int) =~= all);
    list
}

/// The name of a file that coverage can be measured in; debug symbols are not.
pub open spec fn names_object() -> spec_fn(Seq<char>) -> bool {
    |name: Seq<char>| !text::ends_with(name, "dSYM"@)
}

/// The objects among the files of an artifact: none, unless it was built for testing.
pub open spec fn objects_in(artifact: Artifact) -> Seq<Seq<char>> {
    if artifact.profile matches Some(profile) && profile.test {
        text::texts(artifact.filenames@).filter(names_object())
    } else {
        Seq::empty()
    }
}

/// The objects among the files of all artifacts, in order.
pub open spec fn objects_of(artifacts: Seq<Artifact>) -> Seq<Seq<char>>
    decreases artifacts.len(),
{
    if artifacts.len() == 0 {
        Seq::empty()
    } else {
        objects_of(artifacts.drop_last()) + objects_in(artifacts.last())
    }
}

/// Adds the objects among `filenames` to `files`.
fn append_objects(files: &mut Vec<String>, filenames: &Vec<String>)
    ensures
        text::texts(final(files)@) == text::texts(old(files)@) + text::texts(filenames@).filter(
            names_object(),
        ),
{
    let ghost start = text::texts(files@);
    let ghost all = text::texts(filenames@);
    let mut i: usize = 0;
    proof {
        reveal(Seq::filter);
        assert(text::texts(files@) =~= start + all.take(0).filter(names_object()));
    }
    while i < filenames.len()
        invariant
            text::texts(filenames@) == all,
            i <= filenames@.len(),
            text::texts(files@) == start + all.take(i as int).filter(names_object()),
        decreases filenames@.len() - i,
    {
        let ghost name = all[i as int];
        let ghost before = files@;
        assert(name == filenames@[i as int]@);
        if !text::has_suffix(filenames[i].as_str(), "dSYM") {
            let name: String = filenames[i].clone();
            proof {
                text::lemma_texts_push(before, name);
            }
            files.push(name);
        }
        proof {
            assert(all.take(i + 1) =~= all.take(i as int).push(name));
            all.take(i as int).lemma_filter_push(name, names_object());
            assert(text::texts(files@) =~= start + all.take(i + 1).filter(names_object()));
        }
        i += 1;
    }
    assert(all.take(i as int) =~= all);
}

/// The objects among the files of all artifacts.
pub fn objects(artifacts: &Vec<Artifact>) -> (files: Vec<String>)
    ensures
        text::texts(files@) == objects_of(artifacts@),
{
    let mut files: Vec<String> = Vec::new();
    let mut i: usize = 0;
    assert(text::texts(files@) =~= objects_of(artifacts@.take(0)));
    while i < artifacts.len()
        invariant
            i <= artifacts@.len(),
            text::texts(files@) == objects_of(artifacts@.take(i as int)),
        decreases artifacts@.len() - i,
    {
        let ghost before = text::texts(files@);
        let test: bool = match &artifacts[i].profile {
            Some(profile) => profile.test,
            None => false,
        };
        if test {
            append_objects(&mut files, &artifacts[i].filenames);
        }
        proof {
            assert(artifacts@.take(i + 1).drop_last() =~= artifacts@.take(i as int));
            assert(text::texts(files@) =~= before + objects_in(artifacts@[i as int]));
        }
        i += 1;
    }
    assert(artifacts@.take(i as int) =~= artifacts@);
    files
}

/// A candidate that can be executed.
pub open spec fn is_executable() -> spec_fn(Candidate) -> bool {
    |candidate: Candidate| candidate.executable
}

/// The doc tests among the candidates, as text.
pub open spec fn doctests_in(candidates: Seq<Candidate>) -> Seq<Seq<char>> {
    let executables = candidates.filter(is_executable());
    Seq::new(executables.len(), |i: int| text::shown(executables[i].path@))
}

/// Adds the doc tests among the candidates to `files`.
pub fn append_doctests(files: &mut Vec<String>, candidates: &Vec<Candidate>)
    ensures
        text::texts(final(files)@) == text::texts(old(files)@) + doctests_in(candidates@),
{
    let ghost start = text::texts(files@);
    let mut i: usize = 0;
    proof {
        reveal(Seq::filter);
        assert(text::texts(files@) =~= start + doctests_in(candidates@.take(0)));
    }
    while i < candidates.len()
        invariant
            i <= candidates@.len(),
            text::texts(files@) == start + doctests_in(candidates@.take(i as int)),
        decreases candidates@.len() - i,
    {
        let ghost before = files@;
        if candidates[i].executable {
            let file: String = text::show(candidates[i].path.as_slice());
            proof {
                text::lemma_texts_push(before, file);
            }
            files.push(file);
        }
        proof {
            let candidate = candidates@[i as int];
            assert(candidates@.take(i + 1) =~= candidates@.take(i as int).push(candidate));
            candidates@.take(i as int).lemma_filter_push(candidate, is_executable());
            assert(text::texts(files@) =~= start + doctests_in(candidates@.take(i + 1)));
        }
        i += 1;
    }
    assert(candidates@.take(i as int) =~= candidates@);
}

} // verus!
