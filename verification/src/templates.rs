//! The templates that notifications are rendered from, kept by `minijinja`.

use vstd::prelude::*;
use vstd::string::*;

use minijinja::Template;

use crate::text::same_text;

verus! {

/// `minijinja::Error`, what `minijinja` reports for a template that does not
/// compile or does not render.
#[verifier::external_type_specification]
#[verifier::external_body]
pub struct ExTemplateError(minijinja::Error);

/// `minijinja::Template`, a handle to one compiled template of an
/// environment.
#[verifier::external_type_specification]
#[verifier::external_body]
pub struct ExTemplate<'env: 'source, 'source>(minijinja::Template<'env, 'source>);

/// The templates of the relay, by name. The registry is a
/// `minijinja::Environment` with its default settings and without a loader:
/// it holds the templates that were added to it and no others.
#[verifier::external_body]
pub struct Templates {
    registry: minijinja::Environment<'static>,
}

/// The source of each template that a registry holds, by the template's name.
pub uninterp spec fn template_sources(templates: Templates) -> Map<Seq<char>, Seq<char>>;

/// Whether `minijinja` compiles a source under a name: `false` where
/// `Environment::add_template_owned` reports a syntax error for it.
pub uninterp spec fn template_compiles(name: Seq<char>, source: Seq<char>) -> bool;

/// The name under which the template of a file is kept: the file's name
/// without its final `.j2`. A file of any other name, and one whose name is
/// `.j2` alone, holds no template.
pub open spec fn template_name_of_file(file_name: Seq<char>) -> Option<Seq<char>> {
    if file_name.len() > 3 && file_name.skip(file_name.len() - 3) == ".j2"@ {
        Some(file_name.take(file_name.len() - 3))
    } else {
        None
    }
}

/// What a registry without templates holds.
pub open spec fn no_templates() -> Map<Seq<char>, Seq<char>> {
    Map::empty()
}

/// What rendering an event from the template of a name comes to: nothing
/// where the sources hold no such template; otherwise the text, or nothing in
/// its place where rendering ends in an error.
pub open spec fn rendered_event(
    sources: Map<Seq<char>, Seq<char>>,
    name: Seq<char>,
    event: serde_json::Value,
) -> Option<Option<Seq<char>>> {
    if sources.dom().contains(name) {
        Some(rendered_text(template_named(sources, name), "event"@, event))
    } else {
        None
    }
}

impl View for Templates {
    type V = Map<Seq<char>, Seq<char>>;

    open spec fn view(&self) -> Map<Seq<char>, Seq<char>> {
        template_sources(*self)
    }
}

/// `minijinja::Environment::new`: an environment that holds no template.
#[verifier::external_body]
fn empty_registry() -> (registry: Templates)
    ensures
        template_sources(registry) == no_templates(),
{
    Templates { registry: minijinja::Environment::new() }
}

/// `minijinja::Environment::add_template_owned`: a source that compiles is
/// kept under its name, in place of what the name held before; for one that
/// does not compile the error comes back and the registry stays as it was.
#[verifier::external_body]
fn add_template_owned(templates: &mut Templates, name: String, source: String) -> (added: Result<
    (),
    minijinja::Error,
>)
    ensures
        added is Ok <==> template_compiles(name@, source@),
        template_sources(*final(templates)) == if template_compiles(name@, source@) {
            template_sources(*old(templates)).insert(name@, source@)
        } else {
            template_sources(*old(templates))
        },
{
    templates.registry.add_template_owned(name, source)
}

/// The handle that `Environment::get_template` gives for a name, in a
/// registry of the given sources.
pub uninterp spec fn template_named(sources: Map<Seq<char>, Seq<char>>, name: Seq<char>) -> Template<
    'static,
    'static,
>;

/// The text that `Template::render` gives for a template and a context that
/// holds one value under one key; nothing where rendering ends in an error.
pub uninterp spec fn rendered_text(
    template: Template<'static, 'static>,
    key: Seq<char>,
    value: serde_json::Value,
) -> Option<Seq<char>>;

/// `minijinja::Environment::get_template`: the template of that name where
/// the registry holds one, and nothing where it holds none. Which template
/// that is depends on the registry's sources and on the name alone.
#[verifier::external_body]
fn get_template<'a>(templates: &'a Templates, name: &str) -> (found: Option<Template<'a, 'a>>)
    ensures
        found is Some <==> template_sources(*templates).dom().contains(name@),
        found is Some ==> found.unwrap() == template_named(template_sources(*templates), name@),
{
    templates.registry.get_template(name).ok()
}

/// `minijinja::Template::render` on a context that holds the value under the
/// key, as `minijinja::Value::from_serialize` reads it. Whether rendering
/// succeeds, and the text it gives, depend on the template, the key and the
/// value alone; of the error the contract claims nothing.
#[verifier::external_body]
fn render_value(template: &Template<'_, '_>, key: &str, value: &serde_json::Value) -> (rendered: Result<
    String,
    minijinja::Error,
>)
    ensures
        match rendered_text(*template, key@, *value) {
            Some(text) => rendered is Ok && rendered.unwrap()@ == text,
            None => rendered is Err,
        },
{
    template.render(minijinja::Value::from_iter([(key, minijinja::Value::from_serialize(value))]))
}

/// The name under which the template of a file is kept, if the file is a
/// template.
pub fn template_name_of(file_name: &str) -> (name: Option<String>)
    ensures
        match template_name_of_file(file_name@) {
            Some(stem) => name is Some && name.unwrap()@ == stem,
            None => name is None,
        },
{
    let length = file_name.unicode_len();
    if length > 3 {
        let extension = file_name.substring_char(length - 3, length);
        assert(extension@ =~= file_name@.skip(length - 3));
        if same_text(extension, ".j2") {
            let stem = file_name.substring_char(0, length - 3);
            assert(stem@ =~= file_name@.take(length - 3));
            return Some(stem.to_owned());
        }
    }
    None
}

impl Templates {
    /// A registry without templates.
    pub fn new() -> (templates: Self)
        ensures
            templates@ == no_templates(),
    {
        empty_registry()
    }

    /// Compiles a template and keeps it under a name. A template that the
    /// name held before is replaced. A source that does not compile is
    /// refused, and the registry stays as it was.
    pub fn add_template(&mut self, name: String, source: String) -> (added: Result<(), minijinja::Error>)
        ensures
            added is Ok <==> template_compiles(name@, source@),
            added is Ok ==> final(self)@ == old(self)@.insert(name@, source@),
            added is Err ==> final(self)@ == old(self)@,
    {
        add_template_owned(self, name, source)
    }

    /// Whether the registry holds a template of that name.
    pub fn contains(&self, name: &str) -> (held: bool)
        ensures
            held == self@.dom().contains(name@),
    {
        get_template(self, name).is_some()
    }

    /// Renders the template of that name for an event, which the template
    /// reads under the name `event`. Nothing comes back where the registry
    /// holds no such template; otherwise the text, or the error that
    /// rendering ended in.
    pub fn render(&self, name: &str, event: &serde_json::Value) -> (rendered: Option<
        Result<String, minijinja::Error>,
    >)
        ensures
            match rendered_event(self@, name@, *event) {
                None => rendered is None,
                Some(Some(text)) => rendered matches Some(Ok(message)) && message@ == text,
                Some(None) => rendered matches Some(Err(_)),
            },
    {
        match get_template(self, name) {
            Some(template) => Some(render_value(&template, "event", event)),
            None => None,
        }
    }
}

} // verus!
