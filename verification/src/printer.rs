//! The whole output document: what is known of the API, then one module for
//! each operation.

use crate::literal::{quote, string_literal};
use crate::path::{text_of, Path, PathView};
use vstd::prelude::*;
use vstd::string::*;

verus! {

/// The output document of one run.
pub struct GeneratedModule {
    /// The title of the API, once it is set.
    pub name: Option<String>,
    /// The description of the API, once it is set.
    pub description: Option<String>,
    /// The operations, in the order in which their modules are written.
    pub paths: Vec<Path>,
}

/// What a [`GeneratedModule`] holds, with texts as sequences of characters.
pub struct GeneratedModuleView {
    pub name: Option<Seq<char>>,
    pub description: Option<Seq<char>>,
    pub paths: Seq<PathView>,
}

impl View for GeneratedModule {
    type V = GeneratedModuleView;

    open spec fn view(&self) -> GeneratedModuleView {
        GeneratedModuleView {
            name: text_of(self.name),
            description: text_of(self.description),
            paths: self.paths@.map_values(|p: Path| p@),
        }
    }
}

/// One line of documentation of the document itself.
pub open spec fn doc_line(text: Seq<char>) -> Seq<char> {
    "#![doc = "@ + string_literal(text) + "]\n"@
}

/// The modules of the operations, in order, each after an empty line.
pub open spec fn modules_text(paths: Seq<PathView>) -> Seq<char>
    decreases paths.len(),
{
    if paths.len() == 0 {
        Seq::empty()
    } else {
        modules_text(paths.drop_last()) + "\n"@ + paths.last().module_text()
    }
}

/// One more operation adds its module after the modules of the others.
pub proof fn lemma_modules_text_push(paths: Seq<PathView>, path: PathView)
    ensures
        modules_text(paths.push(path)) == modules_text(paths) + "\n"@ + path.module_text(),
{
    assert(paths.push(path).drop_last() =~= paths);
}

impl GeneratedModuleView {
    /// A document of which nothing is known yet.
    pub open spec fn empty() -> GeneratedModuleView {
        GeneratedModuleView { name: None, description: None, paths: Seq::empty() }
    }

    /// The documentation that heads the document: the title, then the
    /// description, as far as they are set. An empty line parts the two.
    pub open spec fn header(self) -> Seq<char> {
        match (self.name, self.description) {
            (Some(n), Some(d)) => doc_line(n) + doc_line(Seq::empty()) + doc_line(d),
            (Some(n), None) => doc_line(n),
            (None, Some(d)) => doc_line(d),
            (None, None) => Seq::empty(),
        }
    }

    /// The whole document.
    pub open spec fn text(self) -> Seq<char> {
        self.header() + modules_text(self.paths)
    }
}

/// Appends one line of documentation to `text`.
fn push_doc_line(text: &mut String, line: &str)
    ensures
        final(text)@ == old(text)@ + doc_line(line@),
{
    let literal = quote(line);
    let mut written = String::from_str("#![doc = ");
    written.append(literal.as_str());
    written.append("]\n");
    text.append(written.as_str());
}

impl GeneratedModule {
    /// A document of which nothing is known yet.
    pub fn new() -> (module: GeneratedModule)
        ensures
            module@ == GeneratedModuleView::empty(),
    {
        let module = GeneratedModule { name: None, description: None, paths: Vec::new() };
        assert(module@.paths =~= Seq::empty());
        module
    }

    /// Sets the title of the API. Nothing else changes.
    pub fn set_name(&mut self, name: String)
        ensures
            final(self)@ == (GeneratedModuleView { name: Some(name@), ..old(self)@ }),
    {
        self.name = Some(name);
    }

    /// Sets the description of the API. Nothing else changes.
    pub fn set_description(&mut self, description: String)
        ensures
            final(self)@ == (GeneratedModuleView { description: Some(description@), ..old(self)@ }),
    {
        self.description = Some(description);
    }

    /// Writes the documentation that heads the document.
    fn print_header(&self) -> (text: String)
        ensures
            text@ == self@.header(),
    {
        let mut text = String::new();
        if let Some(name) = &self.name {
            push_doc_line(&mut text, name.as_str());
            if self.description.is_some() {
                proof {
                    assert(""@ =~= Seq::<char>::empty()) by {
                        reveal_strlit("");
                    }
                }
                push_doc_line(&mut text, "");
            }
        }
        if let Some(description) = &self.description {
            push_doc_line(&mut text, description.as_str());
        }
        text
    }

    /// Writes the whole document. The document is read only, so writing it
    /// again gives the same text.
    pub fn print(&self) -> (text: String)
        ensures
            text@ == self@.text(),
    {
        let mut text = self.print_header();
        for path in it: self.paths.iter()
            invariant
                it.seq().unref() == self.paths@,
                text@ == self@.header() + modules_text(self@.paths.take(it.index())),
        {
            let module = path.print();
            proof {
                let paths = self@.paths;
                assert(paths.take(it.index() + 1) =~= paths.take(it.index()).push(path@));
                lemma_modules_text_push(paths.take(it.index()), path@);
            }
            text.append("\n");
            text.append(module.as_str());
        }
        proof {
            assert(self@.paths.take(self@.paths.len() as int) =~= self@.paths);
        }
        text
    }
}

impl Default for GeneratedModule {
    fn default() -> (module: GeneratedModule)
        ensures
            module@ == GeneratedModuleView::empty(),
    {
        GeneratedModule::new()
    }
}

} // verus!
