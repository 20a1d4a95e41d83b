//! Rendering of named templates against process-wide default variables,
//! through the handlebars engine.
use vstd::prelude::*;
use vstd::std_specs::hash::{builds_valid_hashers, obeys_key_model};
use vstd::std_specs::iter::IteratorSpec;

use std::collections::hash_map::RandomState;
use std::collections::HashMap;

use handlebars::{Handlebars, RenderError, TemplateError};

use crate::names::{Duplicable, NameMap};
use crate::settings::VarMap;

verus! {

#[verifier::external_type_specification]
#[verifier::external_body]
pub struct ExHandlebars<'reg>(Handlebars<'reg>);

#[verifier::external_type_specification]
#[verifier::external_body]
pub struct ExTemplateError(TemplateError);

#[verifier::external_type_specification]
#[verifier::external_body]
pub struct ExRenderError(RenderError);

/// The variable that holds the configuration root.
pub const CONFIG_DIR: &'static str = "config_dir";

/// The variable that holds the workspace root.
pub const WORKSPACE_DIR: &'static str = "workspace_dir";

/// The variable that holds the application data directory.
pub const APPLICATION_DIR: &'static str = "application_dir";

/// Relies on `handlebars::Handlebars::new`: an engine with the built-in
/// helpers and no template.
#[verifier::external_body]
fn new_engine() -> Handlebars<'static> {
    Handlebars::new()
}

/// Whether template text compiles: it depends on the text alone, the name
/// only labels the error.
pub uninterp spec fn compiles(text: Seq<char>) -> bool;

/// Relies on `handlebars::Handlebars::register_template_string`: compiles
/// the text with `Template::compile2` and registers it under the name, or
/// reports its syntax error; whether it compiles depends on the text alone.
#[verifier::external_body]
fn register_text(engine: &mut Handlebars<'static>, name: &str, text: &str) -> (r: Result<(), TemplateError>)
    ensures
        r.is_ok() == compiles(text@),
{
    engine.register_template_string(name, text)
}

/// A character that may stand between the opening braces of a tag and
/// the mark that makes it a partial: blank space, `~` or `#`.
pub open spec fn is_tag_filler(c: char) -> bool {
    c == ' ' || c == '\t' || c == '\n' || c == '\r' || c == '~' || c == '#'
}

/// Whether a partial tag (`{{> ...}}` or `{{#> ...}}`, with any `~` or
/// blank space before the `>`) opens at position `i`.
pub open spec fn partial_at(t: Seq<char>, i: int) -> bool {
    &&& 0 <= i
    &&& i + 1 < t.len()
    &&& t[i] == '{'
    &&& t[i + 1] == '{'
    &&& exists|j: int|
        i + 2 <= j < t.len() && t[j] == '>' && forall|k: int| i + 2 <= k < j ==> is_tag_filler(#[trigger] t[k])
}

/// Whether the text holds a partial tag anywhere.
pub open spec fn has_partial_tag(t: Seq<char>) -> bool {
    exists|i: int| partial_at(t, i)
}

/// The characters of a string slice.
fn chars_of(text: &str) -> (r: Vec<char>)
    ensures
        r@ == text@,
{
    broadcast use vstd::string::axiom_spec_iter, vstd::string::next_postcondition;

    let mut it = text.chars();
    let mut cs: Vec<char> = Vec::new();
    loop
        invariant_except_break
            cs@ + it.remaining() == text@,
            it.decrease() is Some,
        ensures
            cs@ == text@,
        decreases it.decrease()->0,
    {
        match it.next() {
            Some(c) => {
                cs.push(c);
            },
            None => {
                assert(cs@ =~= text@);
                break;
            },
        }
        assert(cs@ + it.remaining() =~= text@);
    }
    cs
}

/// Whether the characters hold a partial tag.
fn holds_partial_tag(t: &Vec<char>) -> (r: bool)
    ensures
        r == has_partial_tag(t@),
{
    let n = t.len();
    let mut i: usize = 0;
    while i < n
        invariant
            i <= n,
            n == t@.len(),
            forall|p: int| 0 <= p < i ==> !partial_at(t@, p),
        decreases n - i,
    {
        if i + 1 < n && t[i] == '{' && t[i + 1] == '{' {
            let mut j: usize = i + 2;
            while j < n && (t[j] == ' ' || t[j] == '\t' || t[j] == '\n' || t[j] == '\r' || t[j]
                == '~' || t[j] == '#')
                invariant
                    i + 2 <= j <= n,
                    n == t@.len(),
                    forall|k: int| i + 2 <= k < j ==> is_tag_filler(#[trigger] t@[k]),
                decreases n - j,
            {
                j = j + 1;
            }
            if j < n && t[j] == '>' {
                assert(partial_at(t@, i as int));
                return true;
            }
            assert(!partial_at(t@, i as int)) by {
                if partial_at(t@, i as int) {
                    let w = choose|w: int|
                        i + 2 <= w < t@.len() && t@[w] == '>' && forall|k: int|
                            i + 2 <= k < w ==> is_tag_filler(#[trigger] t@[k]);
                    if w < j {
                        assert(is_tag_filler(t@[w]));
                    } else if w > j {
                        assert(is_tag_filler(t@[j as int]));
                    }
                }
            }
        }
        i = i + 1;
    }
    assert(!has_partial_tag(t@)) by {
        if has_partial_tag(t@) {
            let p = choose|p: int| partial_at(t@, p);
            assert(p < i);
        }
    }
    false
}

/// Why a template could not be registered or rendered.
pub enum TemplateFailure {
    /// The template includes a partial, which could include templates in
    /// a cycle; templates here are plain documents.
    Partial { template: String },
    /// The template text does not compile.
    Syntax { template: String, error: TemplateError },
    /// Rendering failed, or no template has that name.
    Render { template: String, cause: RenderError },
}

/// The three default variables, each holding one directory.
pub fn default_variables(config_dir: String, workspace_dir: String, application_dir: String) -> (r:
    VarMap)
    ensures
        r@ == Map::<Seq<char>, Seq<char>>::empty().insert(CONFIG_DIR@, config_dir@).insert(
            WORKSPACE_DIR@,
            workspace_dir@,
        ).insert(APPLICATION_DIR@, application_dir@),
{
    let mut vars: VarMap = NameMap::new();
    vars.insert(CONFIG_DIR.to_owned(), config_dir);
    vars.insert(WORKSPACE_DIR.to_owned(), workspace_dir);
    vars.insert(APPLICATION_DIR.to_owned(), application_dir);
    vars
}

/// The default variables with the caller's laid over them.
pub open spec fn template_bag(
    globals: Map<Seq<char>, Seq<char>>,
    extra: Option<Map<Seq<char>, Seq<char>>>,
) -> Map<Seq<char>, Seq<char>> {
    match extra {
        Some(e) => globals.union_prefer_right(e),
        None => globals,
    }
}

/// Whether a table has a key with these characters.
pub open spec fn holds_key(table: Map<String, String>, name: Seq<char>) -> bool {
    exists|k: String| table.contains_key(k) && k@ == name
}

/// The variables as a table for the engine: where `String` keys behave as
/// the hash map expects, it holds exactly the variables.
fn variable_table(bag: &VarMap) -> (table: HashMap<String, String>)
    ensures
        obeys_key_model::<String>() && builds_valid_hashers::<RandomState>() ==> {
            &&& forall|k: String| #[trigger]
                table@.contains_key(k) ==> bag@.contains_key(k@) && table@[k]@ == bag@[k@]
            &&& forall|name: Seq<char>| bag@.contains_key(name) ==> #[trigger] holds_key(table@, name)
        },
{
    let mut table: HashMap<String, String> = HashMap::new();
    let n = bag.len();
    let mut i: usize = 0;
    while i < n
        invariant
            i <= n,
            n == bag.keys().len(),
            bag@.dom() == bag.keys().to_set(),
            obeys_key_model::<String>() && builds_valid_hashers::<RandomState>() ==> {
                &&& forall|k: String| #[trigger]
                    table@.contains_key(k) ==> bag@.contains_key(k@) && table@[k]@ == bag@[k@]
                &&& forall|j: int| 0 <= j < i ==> #[trigger] holds_key(table@, bag.keys()[j])
            },
        decreases n - i,
    {
        let key = bag.key_at(i).clone();
        let value = bag.value_at(i).clone();
        let ghost old_table = table@;
        table.insert(key, value);
        proof {
            if obeys_key_model::<String>() && builds_valid_hashers::<RandomState>() {
                assert(table@.contains_key(key));
                assert forall|j: int| 0 <= j < i + 1 implies #[trigger] holds_key(
                    table@,
                    bag.keys()[j],
                ) by {
                    if j == i {
                        assert(table@.contains_key(key) && key@ == bag.keys()[j]);
                    } else {
                        assert(holds_key(old_table, bag.keys()[j]));
                        let k0 = choose|k: String| old_table.contains_key(k) && k@ == bag.keys()[j];
                        assert(table@.contains_key(k0));
                    }
                }
            }
        }
        i = i + 1;
    }
    proof {
        if obeys_key_model::<String>() && builds_valid_hashers::<RandomState>() {
            assert forall|name: Seq<char>| bag@.contains_key(name) implies #[trigger] holds_key(
                table@,
                name,
            ) by {
                assert(bag.keys().to_set().contains(name));
                let j = choose|j: int| 0 <= j < bag.keys().len() && bag.keys()[j] == name;
                assert(holds_key(table@, bag.keys()[j]));
            }
        }
    }
    table
}

/// A template engine with its default variables.
pub struct Templater {
    handlebar: Handlebars<'static>,
    globals: VarMap,
}

impl Templater {
    /// Relies on `handlebars::Handlebars::render`: renders a registered
    /// template with the given variables as its data. The engine is private
    /// and `register_template` refuses partial tags, so no template it holds
    /// includes another and rendering cannot recurse.
    #[verifier::external_body]
    fn render_with(&self, name: &str, data: &HashMap<String, String>) -> Result<String, RenderError> {
        self.handlebar.render(name, data)
    }

    /// The default variables that every rendering sees.
    pub closed spec fn globals(&self) -> Map<Seq<char>, Seq<char>> {
        self.globals@
    }

    /// An engine with no template and these default variables.
    pub fn new(globals: VarMap) -> (r: Templater)
        ensures
            r.globals() == globals@,
    {
        Templater { handlebar: new_engine(), globals }
    }

    /// Registers template text under a name, replacing any template of
    /// that name. Text with a partial tag is refused, so no registered
    /// template includes another.
    pub fn register_template(&mut self, name: &str, text: &str) -> (r: Result<(), TemplateFailure>)
        ensures
            final(self).globals() == old(self).globals(),
            r.is_ok() == (!has_partial_tag(text@) && compiles(text@)),
            match r {
                Ok(()) => true,
                Err(TemplateFailure::Partial { template }) => template@ == name@ && has_partial_tag(
                    text@,
                ),
                Err(TemplateFailure::Syntax { template, .. }) => template@ == name@ && !has_partial_tag(
                    text@,
                ),
                Err(TemplateFailure::Render { .. }) => false,
            },
    {
        let chars = chars_of(text);
        if holds_partial_tag(&chars) {
            return Err(TemplateFailure::Partial { template: name.to_owned() });
        }
        match register_text(&mut self.handlebar, name, text) {
            Ok(()) => Ok(()),
            Err(cause) => Err(TemplateFailure::Syntax { template: name.to_owned(), error: cause }),
        }
    }

    /// The variables a rendering sees: the defaults, overridden by the
    /// caller's where both name a variable.
    pub fn template_data(&self, data: Option<&VarMap>) -> (r: VarMap)
        ensures
            r@ == template_bag(
                self.globals(),
                match data {
                    Some(d) => Some(d@),
                    None => None,
                },
            ),
    {
        let mut bag = self.globals.duplicate();
        match data {
            Some(d) => bag.extend_from(d),
            None => {},
        }
        bag
    }

    /// Renders a registered template with the default variables and the
    /// caller's, the caller's winning.
    /// What the engine returns decides success; a failure names the
    /// template.
    pub fn render_template(&self, name: &str, data: Option<&VarMap>) -> (r: Result<String, TemplateFailure>)
        ensures
            match r {
                Ok(_) => true,
                Err(TemplateFailure::Render { template, .. }) => template@ == name@,
                Err(_) => false,
            },
    {
        let bag = self.template_data(data);
        let table = variable_table(&bag);
        match self.render_with(name, &table) {
            Ok(text) => Ok(text),
            Err(cause) => Err(TemplateFailure::Render { template: name.to_owned(), cause }),
        }
    }
}

} // verus!
