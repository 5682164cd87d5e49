//! Rendering of templates with the derived colours: which templates there
//! are to compile, and the texts that the template helpers write.

pub mod helpers;

use vstd::prelude::*;
use vstd::string::StringSliceAdditionalSpecFns;
use crate::color::serialization::{find_byte, lemma_search_result};
use crate::config::Plop;

verus! {

/// A template to render, and where to.
#[derive(Debug, Clone)]
pub struct Definition {
    pub template_path: String,
    pub destination_path: String,
}

/// Whether a text names a file rather than being a template itself: it
/// does where it holds no line feed.
pub open spec fn names_path(text: Seq<u8>) -> bool {
    forall|at: int| 0 <= at < text.len() ==> #[trigger] text[at] != 10
}

/// Decides whether a text names a file rather than being a template.
pub fn is_path(text: &str) -> (path: bool)
    ensures
        path == names_path(text.spec_bytes()),
{
    let bytes = text.as_bytes();
    proof {
        lemma_search_result(bytes@, 0, bytes@.len() as int, 10);
    }
    find_byte(bytes, 0, bytes.len(), 10) == bytes.len()
}

/// The texts of `templates` without the repetitions: each text once, in
/// the order in which it first occurs.
pub open spec fn distinct_of(templates: Seq<Seq<char>>) -> Seq<Seq<char>>
    decreases templates.len(),
{
    if templates.len() == 0 {
        Seq::empty()
    } else {
        let before = distinct_of(templates.drop_last());
        if before.contains(templates.last()) {
            before
        } else {
            before.push(templates.last())
        }
    }
}

/// The templates of `definitions`.
pub open spec fn templates_of(definitions: Seq<Plop>) -> Seq<Seq<char>> {
    Seq::new(definitions.len(), |index: int| definitions[index].template@)
}

/// The texts of `names`.
pub open spec fn texts_of(names: Seq<String>) -> Seq<Seq<char>> {
    Seq::new(names.len(), |index: int| names[index]@)
}

/// Decides whether `names` holds the text of `name`.
pub fn holds(names: &Vec<String>, name: &String) -> (held: bool)
    ensures
        held == texts_of(names@).contains(name@),
{
    let mut index: usize = 0;
    while index < names.len()
        invariant
            index <= names.len(),
            forall|at: int| 0 <= at < index ==> #[trigger] texts_of(names@)[at] != name@,
        decreases names.len() - index,
    {
        if names[index] == *name {
            assert(texts_of(names@)[index as int] == name@);
            return true;
        }
        index = index + 1;
    }
    false
}

/// The templates to compile: each template of `definitions` once, in the
/// order in which it first occurs.
pub fn unique_templates(definitions: &Vec<Plop>) -> (templates: Vec<String>)
    ensures
        texts_of(templates@) == distinct_of(templates_of(definitions@)),
{
    let mut templates: Vec<String> = Vec::new();
    let mut index: usize = 0;
    assert(templates_of(definitions@).subrange(0, 0) =~= Seq::<Seq<char>>::empty());
    assert(texts_of(templates@) =~= Seq::<Seq<char>>::empty());
    while index < definitions.len()
        invariant
            index <= definitions.len(),
            texts_of(templates@) == distinct_of(
                templates_of(definitions@).subrange(0, index as int),
            ),
        decreases definitions.len() - index,
    {
        let ghost before = texts_of(templates@);
        let ghost next = templates_of(definitions@).subrange(0, index + 1);
        assert(next.drop_last() =~= templates_of(definitions@).subrange(0, index as int));
        assert(next.last() == definitions[index as int].template@);
        if !holds(&templates, &definitions[index].template) {
            templates.push(definitions[index].template.clone());
            assert(texts_of(templates@) =~= before.push(definitions[index as int].template@));
        }
        index = index + 1;
    }
    assert(templates_of(definitions@).subrange(0, definitions.len() as int) =~= templates_of(
        definitions@,
    ));
    templates
}

} // verus!
