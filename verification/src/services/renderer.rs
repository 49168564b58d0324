use crate::error::{Error, ErrorView};
use crate::text::chars_of;
use vstd::prelude::*;
use vstd::string::StringExecFns;

verus! {

/// The registry of templates of the template engine.
#[verifier::external_type_specification]
#[verifier::external_body]
pub struct ExRegistry<'reg>(handlebars::Handlebars<'reg>);

/// A JSON document: the context that a template is expanded against.
#[verifier::external_type_specification]
#[verifier::external_body]
pub struct ExJsonValue(serde_json::Value);

/// The deepest nesting of blocks and subexpressions that a template may
/// have. The renderer descends one level for each block within a block and
/// each subexpression within a subexpression, and a template nested some
/// hundred levels deep exhausts the stack of an ordinary thread.
pub const NESTING_LIMIT: usize = 100;

/// Where the scan of a template stands.
#[derive(Clone, Copy, Debug, PartialEq, Eq, Structural)]
pub enum Mode {
    /// In plain text.
    Text,
    /// In plain text, after one opening brace.
    Open,
    /// In a tag, before anything but white space and `~`.
    Head,
    /// In a tag, after the mark `#` of a block.
    Sharp,
    /// In a tag, after a third opening brace.
    Triple,
    /// After `{{!`, before it shows which form of comment this is.
    Bang,
    /// In a comment that ends with the next `}}`.
    Comment,
    /// In the body of a tag.
    Body,
    /// In a string between double quotes.
    DoubleQuote,
    /// In a string between single quotes.
    SingleQuote,
    /// Past the point up to which the scan knows what is tag and what is
    /// text, and outside anything that looks like a tag.
    Unsure,
    /// As `Unsure`, after one opening brace.
    UnsureOpen,
    /// As `Unsure`, after two opening braces and nothing but white space, `~`
    /// and `#`.
    UnsureHead,
}

/// What the scan of a template has found so far.
#[derive(Clone, Copy, Debug, PartialEq, Eq, Structural)]
pub struct Scan {
    pub mode: Mode,
    /// In a tag or a comment: the last character was a closing brace. After
    /// two opening braces where the scan is unsure: a `#` was counted.
    pub tail: bool,
    /// The blocks and subexpressions that are open here.
    pub level: usize,
    /// The subexpressions that are open in this tag.
    pub parens: usize,
    /// The nesting went beyond [`NESTING_LIMIT`] somewhere.
    pub over: bool,
    /// A tag that includes a partial was found.
    pub partial: bool,
}

/// White space between the parts of a tag.
pub open spec fn space(c: char) -> bool {
    c == ' ' || c == '\t' || c == '\n' || c == '\r'
}

/// The scan in another mode.
pub open spec fn turned(scan: Scan, mode: Mode, tail: bool) -> Scan {
    Scan {
        mode,
        tail,
        level: scan.level,
        parens: scan.parens,
        over: scan.over,
        partial: scan.partial,
    }
}

/// The scan one level deeper, or over the limit where it stood at it.
pub open spec fn deeper(scan: Scan) -> Scan {
    if scan.level >= NESTING_LIMIT {
        Scan {
            mode: scan.mode,
            tail: scan.tail,
            level: scan.level,
            parens: scan.parens,
            over: true,
            partial: scan.partial,
        }
    } else {
        Scan {
            mode: scan.mode,
            tail: scan.tail,
            level: (scan.level + 1) as usize,
            parens: scan.parens,
            over: scan.over,
            partial: scan.partial,
        }
    }
}

/// The scan after a parenthesis that opens a subexpression.
pub open spec fn opened(scan: Scan) -> Scan {
    if scan.level >= NESTING_LIMIT {
        deeper(scan)
    } else {
        Scan {
            mode: scan.mode,
            tail: scan.tail,
            level: (scan.level + 1) as usize,
            parens: if scan.parens < NESTING_LIMIT {
                (scan.parens + 1) as usize
            } else {
                scan.parens
            },
            over: scan.over,
            partial: scan.partial,
        }
    }
}

/// The scan after a parenthesis that closes a subexpression.
pub open spec fn shut(scan: Scan) -> Scan {
    if scan.parens > 0 && scan.level > 0 {
        Scan {
            mode: scan.mode,
            tail: scan.tail,
            level: (scan.level - 1) as usize,
            parens: (scan.parens - 1) as usize,
            over: scan.over,
            partial: scan.partial,
        }
    } else {
        scan
    }
}

/// The scan after the tag that closes a block.
pub open spec fn block_closed(scan: Scan) -> Scan {
    if scan.level > 0 {
        Scan {
            mode: scan.mode,
            tail: scan.tail,
            level: (scan.level - 1) as usize,
            parens: scan.parens,
            over: scan.over,
            partial: scan.partial,
        }
    } else {
        scan
    }
}

/// The scan back in plain text after the end of a tag: the subexpressions of
/// the tag are behind it.
pub open spec fn tag_ended(scan: Scan) -> Scan {
    Scan {
        mode: Mode::Text,
        tail: false,
        level: if scan.parens <= scan.level {
            (scan.level - scan.parens) as usize
        } else {
            0
        },
        parens: 0,
        over: scan.over,
        partial: scan.partial,
    }
}

/// The scan with a partial found.
pub open spec fn with_partial(scan: Scan, mode: Mode) -> Scan {
    Scan {
        mode,
        tail: false,
        level: scan.level,
        parens: scan.parens,
        over: scan.over,
        partial: true,
    }
}

/// One character on in the body of a tag.
///
/// The tag ends with the next `}}`. A string runs to its closing quote. A
/// parenthesis opens or closes a subexpression. After a bracket, a brace or a
/// backslash the scan no longer knows where the tag ends.
pub open spec fn body_step(scan: Scan, c: char) -> Scan {
    if c == '}' {
        if scan.tail {
            tag_ended(scan)
        } else {
            turned(scan, Mode::Body, true)
        }
    } else if c == '"' {
        turned(scan, Mode::DoubleQuote, false)
    } else if c == '\'' {
        turned(scan, Mode::SingleQuote, false)
    } else if c == '{' {
        turned(scan, Mode::UnsureOpen, false)
    } else if c == '[' || c == '\\' {
        turned(scan, Mode::Unsure, false)
    } else if c == '(' {
        opened(turned(scan, Mode::Body, false))
    } else if c == ')' {
        shut(turned(scan, Mode::Body, false))
    } else {
        turned(scan, Mode::Body, false)
    }
}

/// One character on where the scan is unsure what is tag and what is text.
///
/// Every parenthesis counts as one more level, and so does every `{{#`,
/// with white space and `~` between; nothing closes a level. Every `{{>`,
/// with white space, `~` and `#` between, counts as a partial.
pub open spec fn unsure_step(scan: Scan, c: char) -> Scan {
    let counted = if c == '(' {
        deeper(scan)
    } else {
        scan
    };
    if c == '{' {
        if scan.mode == Mode::Unsure {
            turned(counted, Mode::UnsureOpen, false)
        } else {
            turned(counted, Mode::UnsureHead, false)
        }
    } else if scan.mode == Mode::UnsureHead {
        if space(c) || c == '~' {
            counted
        } else if c == '#' {
            if scan.tail {
                counted
            } else {
                turned(deeper(counted), Mode::UnsureHead, true)
            }
        } else if c == '>' {
            with_partial(counted, Mode::Unsure)
        } else {
            turned(counted, Mode::Unsure, false)
        }
    } else {
        turned(counted, Mode::Unsure, false)
    }
}

/// One character on in the scan of a template.
pub open spec fn step(scan: Scan, c: char) -> Scan {
    match scan.mode {
        Mode::Text => if c == '{' {
            turned(scan, Mode::Open, false)
        } else if c == '\\' {
            turned(scan, Mode::Unsure, false)
        } else {
            scan
        },
        Mode::Open => if c == '{' {
            turned(scan, Mode::Head, false)
        } else if c == '\\' {
            turned(scan, Mode::Unsure, false)
        } else {
            turned(scan, Mode::Text, false)
        },
        Mode::Head => if space(c) || c == '~' {
            scan
        } else if c == '#' {
            deeper(turned(scan, Mode::Sharp, false))
        } else if c == '>' {
            with_partial(scan, Mode::Body)
        } else if c == '/' {
            block_closed(turned(scan, Mode::Body, false))
        } else if c == '!' {
            turned(scan, Mode::Bang, false)
        } else if c == '{' {
            turned(scan, Mode::Triple, false)
        } else {
            body_step(scan, c)
        },
        Mode::Sharp => if space(c) {
            scan
        } else if c == '>' {
            with_partial(scan, Mode::Body)
        } else {
            body_step(scan, c)
        },
        Mode::Triple => if c == '{' {
            turned(scan, Mode::UnsureHead, false)
        } else {
            body_step(scan, c)
        },
        Mode::Bang => if space(c) {
            scan
        } else if c == '-' {
            turned(scan, Mode::Unsure, false)
        } else {
            turned(scan, Mode::Comment, c == '}')
        },
        Mode::Comment => if c == '}' && scan.tail {
            turned(scan, Mode::Text, false)
        } else {
            turned(scan, Mode::Comment, c == '}')
        },
        Mode::Body => body_step(scan, c),
        Mode::DoubleQuote => if c == '"' {
            turned(scan, Mode::Body, false)
        } else if c == '\\' {
            turned(scan, Mode::Unsure, false)
        } else {
            scan
        },
        Mode::SingleQuote => if c == '\'' {
            turned(scan, Mode::Body, false)
        } else if c == '\\' {
            turned(scan, Mode::Unsure, false)
        } else {
            scan
        },
        Mode::Unsure => unsure_step(scan, c),
        Mode::UnsureOpen => unsure_step(scan, c),
        Mode::UnsureHead => unsure_step(scan, c),
    }
}

/// The scan before the first character.
pub open spec fn scan_start() -> Scan {
    Scan { mode: Mode::Text, tail: false, level: 0, parens: 0, over: false, partial: false }
}

/// The scan after the first `upto` characters of `text`.
pub open spec fn scanned(text: Seq<char>, upto: int) -> Scan
    decreases upto,
{
    if upto <= 0 {
        scan_start()
    } else {
        step(scanned(text, upto - 1), text[upto - 1])
    }
}

/// The complaint about a template that includes a partial.
pub open spec fn partials_refused() -> Seq<char> {
    "Partials are not supported"@
}

/// The complaint about a template that is nested more deeply than
/// [`NESTING_LIMIT`].
pub open spec fn nesting_refused() -> Seq<char> {
    "Template is nested too deeply"@
}

/// Why the render stage refuses `template` before it is handed to the
/// template engine, if it does: it includes a partial, or else its blocks
/// and subexpressions are nested more deeply than [`NESTING_LIMIT`].
///
/// The scan follows the tags of the template: text, comments and strings
/// hold no tag, a block is open from its `{{#` to its `{{/`, a
/// subexpression from its parenthesis to the closing one. Where a template
/// uses an escape, a long comment, a raw block, a bracketed path or an
/// object literal, the scan is unsure from there on and counts every mark
/// that may open a level or include a partial.
pub open spec fn refusal(template: Seq<char>) -> Option<Seq<char>> {
    let scan = scanned(template, template.len() as int);
    if scan.partial {
        Some(partials_refused())
    } else if scan.over {
        Some(nesting_refused())
    } else {
        None
    }
}

fn is_space(c: char) -> (yes: bool)
    ensures
        yes == space(c),
{
    c == ' ' || c == '\t' || c == '\n' || c == '\r'
}

fn turn(scan: Scan, mode: Mode, tail: bool) -> (next: Scan)
    ensures
        next == turned(scan, mode, tail),
{
    Scan {
        mode,
        tail,
        level: scan.level,
        parens: scan.parens,
        over: scan.over,
        partial: scan.partial,
    }
}

fn go_deeper(scan: Scan) -> (next: Scan)
    ensures
        next == deeper(scan),
{
    if scan.level >= NESTING_LIMIT {
        Scan {
            mode: scan.mode,
            tail: scan.tail,
            level: scan.level,
            parens: scan.parens,
            over: true,
            partial: scan.partial,
        }
    } else {
        Scan {
            mode: scan.mode,
            tail: scan.tail,
            level: scan.level + 1,
            parens: scan.parens,
            over: scan.over,
            partial: scan.partial,
        }
    }
}

fn open_paren(scan: Scan) -> (next: Scan)
    ensures
        next == opened(scan),
{
    if scan.level >= NESTING_LIMIT {
        go_deeper(scan)
    } else {
        Scan {
            mode: scan.mode,
            tail: scan.tail,
            level: scan.level + 1,
            parens: if scan.parens < NESTING_LIMIT {
                scan.parens + 1
            } else {
                scan.parens
            },
            over: scan.over,
            partial: scan.partial,
        }
    }
}

fn shut_paren(scan: Scan) -> (next: Scan)
    ensures
        next == shut(scan),
{
    if scan.parens > 0 && scan.level > 0 {
        Scan {
            mode: scan.mode,
            tail: scan.tail,
            level: scan.level - 1,
            parens: scan.parens - 1,
            over: scan.over,
            partial: scan.partial,
        }
    } else {
        scan
    }
}

fn close_block(scan: Scan) -> (next: Scan)
    ensures
        next == block_closed(scan),
{
    if scan.level > 0 {
        Scan {
            mode: scan.mode,
            tail: scan.tail,
            level: scan.level - 1,
            parens: scan.parens,
            over: scan.over,
            partial: scan.partial,
        }
    } else {
        scan
    }
}

fn end_tag(scan: Scan) -> (next: Scan)
    ensures
        next == tag_ended(scan),
{
    Scan {
        mode: Mode::Text,
        tail: false,
        level: if scan.parens <= scan.level {
            scan.level - scan.parens
        } else {
            0
        },
        parens: 0,
        over: scan.over,
        partial: scan.partial,
    }
}

fn found_partial(scan: Scan, mode: Mode) -> (next: Scan)
    ensures
        next == with_partial(scan, mode),
{
    Scan {
        mode,
        tail: false,
        level: scan.level,
        parens: scan.parens,
        over: scan.over,
        partial: true,
    }
}

fn advance_in_body(scan: Scan, c: char) -> (next: Scan)
    ensures
        next == body_step(scan, c),
{
    if c == '}' {
        if scan.tail {
            end_tag(scan)
        } else {
            turn(scan, Mode::Body, true)
        }
    } else if c == '"' {
        turn(scan, Mode::DoubleQuote, false)
    } else if c == '\'' {
        turn(scan, Mode::SingleQuote, false)
    } else if c == '{' {
        turn(scan, Mode::UnsureOpen, false)
    } else if c == '[' || c == '\\' {
        turn(scan, Mode::Unsure, false)
    } else if c == '(' {
        open_paren(turn(scan, Mode::Body, false))
    } else if c == ')' {
        shut_paren(turn(scan, Mode::Body, false))
    } else {
        turn(scan, Mode::Body, false)
    }
}

fn advance_unsure(scan: Scan, c: char) -> (next: Scan)
    ensures
        next == unsure_step(scan, c),
{
    let counted = if c == '(' {
        go_deeper(scan)
    } else {
        scan
    };
    let head = match scan.mode {
        Mode::UnsureHead => true,
        _ => false,
    };
    let plain = match scan.mode {
        Mode::Unsure => true,
        _ => false,
    };
    if c == '{' {
        if plain {
            turn(counted, Mode::UnsureOpen, false)
        } else {
            turn(counted, Mode::UnsureHead, false)
        }
    } else if head {
        if is_space(c) || c == '~' {
            counted
        } else if c == '#' {
            if scan.tail {
                counted
            } else {
                turn(go_deeper(counted), Mode::UnsureHead, true)
            }
        } else if c == '>' {
            found_partial(counted, Mode::Unsure)
        } else {
            turn(counted, Mode::Unsure, false)
        }
    } else {
        turn(counted, Mode::Unsure, false)
    }
}

fn advance(scan: Scan, c: char) -> (next: Scan)
    ensures
        next == step(scan, c),
{
    match scan.mode {
        Mode::Text => if c == '{' {
            turn(scan, Mode::Open, false)
        } else if c == '\\' {
            turn(scan, Mode::Unsure, false)
        } else {
            scan
        },
        Mode::Open => if c == '{' {
            turn(scan, Mode::Head, false)
        } else if c == '\\' {
            turn(scan, Mode::Unsure, false)
        } else {
            turn(scan, Mode::Text, false)
        },
        Mode::Head => if is_space(c) || c == '~' {
            scan
        } else if c == '#' {
            go_deeper(turn(scan, Mode::Sharp, false))
        } else if c == '>' {
            found_partial(scan, Mode::Body)
        } else if c == '/' {
            close_block(turn(scan, Mode::Body, false))
        } else if c == '!' {
            turn(scan, Mode::Bang, false)
        } else if c == '{' {
            turn(scan, Mode::Triple, false)
        } else {
            advance_in_body(scan, c)
        },
        Mode::Sharp => if is_space(c) {
            scan
        } else if c == '>' {
            found_partial(scan, Mode::Body)
        } else {
            advance_in_body(scan, c)
        },
        Mode::Triple => if c == '{' {
            turn(scan, Mode::UnsureHead, false)
        } else {
            advance_in_body(scan, c)
        },
        Mode::Bang => if is_space(c) {
            scan
        } else if c == '-' {
            turn(scan, Mode::Unsure, false)
        } else {
            turn(scan, Mode::Comment, c == '}')
        },
        Mode::Comment => if c == '}' && scan.tail {
            turn(scan, Mode::Text, false)
        } else {
            turn(scan, Mode::Comment, c == '}')
        },
        Mode::Body => advance_in_body(scan, c),
        Mode::DoubleQuote => if c == '"' {
            turn(scan, Mode::Body, false)
        } else if c == '\\' {
            turn(scan, Mode::Unsure, false)
        } else {
            scan
        },
        Mode::SingleQuote => if c == '\'' {
            turn(scan, Mode::Body, false)
        } else if c == '\\' {
            turn(scan, Mode::Unsure, false)
        } else {
            scan
        },
        Mode::Unsure => advance_unsure(scan, c),
        Mode::UnsureOpen => advance_unsure(scan, c),
        Mode::UnsureHead => advance_unsure(scan, c),
    }
}

/// Scans `template` and says why the render stage refuses it, if it does.
pub fn check_template(template: &str) -> (complaint: Option<String>)
    ensures
        match complaint {
            Some(complaint) => refusal(template@) == Some(complaint@),
            None => refusal(template@) is None,
        },
{
    let chars = chars_of(template);
    let mut scan = Scan {
        mode: Mode::Text,
        tail: false,
        level: 0,
        parens: 0,
        over: false,
        partial: false,
    };
    let mut at: usize = 0;
    while at < chars.len()
        invariant
            chars@ == template@,
            at <= chars.len(),
            scan == scanned(template@, at as int),
        decreases chars.len() - at,
    {
        scan = advance(scan, chars[at]);
        at += 1;
    }
    if scan.partial {
        Some(String::from_str("Partials are not supported"))
    } else if scan.over {
        Some(String::from_str("Template is nested too deeply"))
    } else {
        None
    }
}

/// What a registry holds: its templates as they were registered, by name,
/// whether it is in strict mode, and whether it is plain, which is to say
/// that apart from its templates and its mode it is as
/// `handlebars::Handlebars::new` made it.
pub struct RegistryView {
    pub templates: Map<Seq<char>, Seq<char>>,
    pub strict: bool,
    pub plain: bool,
}

/// What `registry` holds.
pub uninterp spec fn registry_view(registry: handlebars::Handlebars<'_>) -> RegistryView;

/// The text that rendering the template `name` of a plain registry with the
/// templates `templates`, in strict mode or not, against `data` gives, where
/// it gives one.
pub uninterp spec fn expansion(
    templates: Map<Seq<char>, Seq<char>>,
    strict: bool,
    name: Seq<char>,
    data: serde_json::Value,
) -> Seq<char>;

/// Whether every template in `templates` is one that the render stage does
/// not refuse.
pub open spec fn all_fit(templates: Map<Seq<char>, Seq<char>>) -> bool {
    forall|name: Seq<char>| #[trigger]
        templates.contains_key(name) ==> refusal(templates[name]) is None
}

/// Calls `handlebars::Handlebars::new`: a registry without templates, not in
/// strict mode, with the built-in helpers alone.
#[verifier::external_body]
fn new_registry() -> (registry: handlebars::Handlebars<'static>)
    ensures
        registry_view(registry) == (RegistryView {
            templates: Map::empty(),
            strict: false,
            plain: true,
        }),
{
    handlebars::Handlebars::new()
}

/// Calls `handlebars::Handlebars::set_strict_mode`, which sets the mode and
/// nothing else.
#[verifier::external_body]
fn set_strict(registry: &mut handlebars::Handlebars<'static>, enabled: bool)
    ensures
        registry_view(*final(registry)) == (RegistryView {
            templates: registry_view(*old(registry)).templates,
            strict: enabled,
            plain: registry_view(*old(registry)).plain,
        }),
{
    registry.set_strict_mode(enabled)
}

/// Calls `handlebars::Handlebars::register_template_string`. A template
/// that compiles is stored under `name`, in place of what was there. One that
/// does not compile leaves the registry as it was and comes back as the text
/// of the error; so does one for which the parser finds too little stack
/// left.
#[verifier::external_body]
fn register(
    registry: &mut handlebars::Handlebars<'static>,
    name: &str,
    template: &str,
) -> (outcome: Result<(), String>)
    requires
        refusal(template@) is None,
    ensures
        match outcome {
            Ok(_) => registry_view(*final(registry)) == (RegistryView {
                templates: registry_view(*old(registry)).templates.insert(name@, template@),
                strict: registry_view(*old(registry)).strict,
                plain: registry_view(*old(registry)).plain,
            }),
            Err(_) => registry_view(*final(registry)) == registry_view(*old(registry)),
        },
{
    match registry.register_template_string(name, template) {
        Ok(()) => Ok(()),
        Err(e) => Err(e.to_string()),
    }
}

/// Calls `handlebars::Handlebars::render`. Where it gives a text, the text
/// depends on the templates, the mode, the name and the data alone: a plain
/// registry holds only the built-in helpers, none of which reads a clock, a
/// random source or the environment. Nothing is said of a refusal.
///
/// A registry with a template that includes a partial or is nested too
/// deeply is left out: a partial defined inline may include itself, and the
/// renderer descends with the nesting; either way it may not return.
#[verifier::external_body]
fn render_registered(
    registry: &handlebars::Handlebars<'static>,
    name: &str,
    data: &serde_json::Value,
) -> (outcome: Result<String, String>)
    requires
        registry_view(*registry).plain,
        all_fit(registry_view(*registry).templates),
    ensures
        outcome matches Ok(text) ==> text@ == expansion(
            registry_view(*registry).templates,
            registry_view(*registry).strict,
            name@,
            *data,
        ),
{
    match registry.render(name, data) {
        Ok(text) => Ok(text),
        Err(e) => Err(e.to_string()),
    }
}

/// The outcome of the render stage for what the template engine gave: the
/// text, or [`Error::RenderError`] with the complaint.
pub fn render_outcome(expanded: Result<String, String>) -> (outcome: Result<String, Error>)
    ensures
        match expanded {
            Ok(text) => outcome == Ok::<String, Error>(text),
            Err(complaint) => outcome == Err::<String, Error>(Error::RenderError(complaint)),
        },
{
    match expanded {
        Ok(text) => Ok(text),
        Err(complaint) => Err(Error::RenderError(complaint)),
    }
}

/// The text that expanding `template`, known as `name`, against `data` gives
/// where the template engine gives one: what a plain registry in strict mode
/// that holds this template alone renders under that name.
pub open spec fn rendering(
    name: Seq<char>,
    template: Seq<char>,
    data: serde_json::Value,
) -> Seq<char> {
    expansion(Map::<Seq<char>, Seq<char>>::empty().insert(name, template), true, name, data)
}

/// Whether `outcome` is what the render stage may give for a template.
///
/// A template that the stage refuses fails with the complaint about it. Any
/// other is handed to the template engine as it came: a text that comes back
/// is the rendering of the template, and a failure is a render error.
pub open spec fn render_ensures(
    name: Seq<char>,
    template: Seq<char>,
    data: serde_json::Value,
    outcome: Result<String, Error>,
) -> bool {
    match refusal(template) {
        Some(complaint) => outcome matches Err(e) && e@ == ErrorView::RenderError(complaint),
        None => match outcome {
            Ok(text) => text@ == rendering(name, template, data),
            Err(e) => e@ is RenderError,
        },
    }
}

/// Expands the template `template`, known as `name`, against the JSON
/// document `data`, in strict mode: a reference that the data does not
/// resolve is an error.
///
/// A template that includes a partial and one that is nested too deeply are
/// refused before the template engine sees them. A template that does not
/// compile, a reference that the data does not resolve and a template that
/// cannot be rendered all fail with [`Error::RenderError`].
pub fn render(
    name: &str,
    template: &str,
    data: &serde_json::Value,
) -> (outcome: Result<String, Error>)
    ensures
        render_ensures(name@, template@, *data, outcome),
{
    match check_template(template) {
        Some(complaint) => {
            return Err(Error::RenderError(complaint));
        },
        None => {},
    }
    let mut registry = new_registry();
    set_strict(&mut registry, true);
    match register(&mut registry, name, template) {
        Ok(_) => {},
        Err(complaint) => {
            return render_outcome(Err(complaint));
        },
    }
    assert(registry_view(registry).templates =~= Map::<Seq<char>, Seq<char>>::empty().insert(
        name@,
        template@,
    ));
    render_outcome(render_registered(&registry, name, data))
}

/// Rendering is deterministic: two renders of the same template under the
/// same name against the same data that both give a text give the same text,
/// and a template that is refused is refused both times with the same
/// complaint.
pub proof fn lemma_renders_agree(
    name: Seq<char>,
    template: Seq<char>,
    data: serde_json::Value,
    first: Result<String, Error>,
    second: Result<String, Error>,
)
    requires
        render_ensures(name, template, data, first),
        render_ensures(name, template, data, second),
    ensures
        first is Ok && second is Ok ==> first->Ok_0@ == second->Ok_0@,
        refusal(template) is Some ==> first is Err && second is Err && first->Err_0@
            == second->Err_0@,
{
}

} // verus!
