use vstd::prelude::*;
use vstd::string::*;
use crate::context::{ContextValue, FieldValue, TemplateContext};
use crate::paths::{components, is_absolute, is_under, joined, join_under_root, lemma_join_then_strip, relative_to, strip_root};
use crate::table::{get_entry, lookup};
use crate::text::{join_strings, join_with, reversed_domain, views};

verus! {

/// A parameter handed to a template helper, as the helpers read it.
#[derive(Debug)]
pub enum ParamValue {
    Text(String),
    List(Vec<ParamValue>),
    /// Any other value: a number, a boolean, an object or null.
    Other,
}

/// Why a template helper could not write its output.
#[derive(Clone, Copy, Debug, PartialEq, Eq, Structural)]
pub enum HelperError {
    /// A list helper was given something other than a list of strings.
    MissingArray,
    /// `app.root-dir` is absent from the context or is not text.
    MissingContextField,
    /// The path handed to `unprefix-path` does not lie under `app.root-dir`.
    PathNotUnderRoot,
}

/// How a list helper writes each item.
#[derive(Clone, Copy, Debug, PartialEq, Eq, Structural)]
pub enum ItemFormat {
    /// The item as it is.
    Plain,
    /// The item in double quotes, escaped as a Rust string literal.
    Quoted,
    /// The item with a leading colon, then quoted.
    ColonQuoted,
}

/// What `handlebars::html_escape` makes of one character.
pub open spec fn escape_char(c: char) -> Seq<char> {
    if c == '<' {
        "&lt;"@
    } else if c == '>' {
        "&gt;"@
    } else if c == '"' {
        "&quot;"@
    } else if c == '&' {
        "&amp;"@
    } else if c == '\'' {
        "&#x27;"@
    } else if c == '`' {
        "&#x60;"@
    } else if c == '=' {
        "&#x3D;"@
    } else {
        seq![c]
    }
}

/// `s` with each character replaced by its HTML escape.
pub open spec fn escaped_html(s: Seq<char>) -> Seq<char>
    decreases s.len(),
{
    if s.len() == 0 {
        Seq::empty()
    } else {
        escaped_html(s.drop_last()) + escape_char(s.last())
    }
}

/// What heck's snake-case conversion makes of a string.
pub uninterp spec fn snake_of(s: Seq<char>) -> Seq<char>;

/// What `{:?}` writes for a string: it in double quotes, with its special
/// characters escaped.
pub uninterp spec fn debug_quoted(s: Seq<char>) -> Seq<char>;

/// Relies on `handlebars::html_escape`, which replaces each of `< > " & ' ` =`
/// by its entity and keeps every other character.
#[verifier::external_body]
fn escape_html_text(s: &str) -> (r: String)
    ensures
        r@ == escaped_html(s@),
{
    handlebars::html_escape(s)
}

/// Relies on `heck::ToSnekCase::to_snek_case` for `str`.
#[verifier::external_body]
fn to_snake(s: &str) -> (r: String)
    ensures
        r@ == snake_of(s@),
{
    heck::ToSnekCase::to_snek_case(s)
}

/// Relies on std's `Debug` for `str`, written with `format!("{:?}", ..)`.
#[verifier::external_body]
fn quote_debug(s: &str) -> (r: String)
    ensures
        r@ == debug_quoted(s@),
{
    format!("{:?}", s)
}

/// The text of the first parameter, or the empty string where it is absent or
/// not text.
pub open spec fn param_text(param: Option<&ParamValue>) -> Seq<char> {
    match param {
        Some(ParamValue::Text(s)) => s@,
        _ => Seq::empty(),
    }
}

/// An item as a list helper writes it.
pub open spec fn format_item(format: ItemFormat, s: Seq<char>) -> Seq<char> {
    match format {
        ItemFormat::Plain => s,
        ItemFormat::Quoted => debug_quoted(s),
        ItemFormat::ColonQuoted => debug_quoted(seq![':'] + s),
    }
}

/// Whether every item of a list is text.
pub open spec fn all_text(items: Seq<ParamValue>) -> bool {
    forall|i: int| 0 <= i < items.len() ==> items[i] is Text
}

/// The formatted items of the first parameter, where it is a list of text.
pub open spec fn formatted_items(param: Option<&ParamValue>, format: ItemFormat) -> Option<
    Seq<Seq<char>>,
> {
    match param {
        Some(ParamValue::List(items)) => if all_text(items@) {
            Some(Seq::new(items@.len(), |i: int| format_item(format, items@[i]->Text_0@)))
        } else {
            None
        },
        _ => None,
    }
}

/// What a list helper writes: the formatted items joined by `", "`.
pub open spec fn joined_items(param: Option<&ParamValue>, format: ItemFormat) -> Result<
    Seq<char>,
    HelperError,
> {
    match formatted_items(param, format) {
        Some(parts) => Ok(join_with(parts, ", "@)),
        None => Err(HelperError::MissingArray),
    }
}

/// The view of a helper's output.
pub open spec fn out_view(r: Result<String, HelperError>) -> Result<Seq<char>, HelperError> {
    match r {
        Ok(s) => Ok(s@),
        Err(e) => Err(e),
    }
}

/// The text of the first parameter, or `""`.
pub fn get_str(param: Option<&ParamValue>) -> (r: String)
    ensures
        r@ == param_text(param),
{
    match param {
        Some(ParamValue::Text(s)) => s.clone(),
        _ => String::new(),
    }
}

/// Writes one item in the given format.
fn format_one(format: ItemFormat, s: &String) -> (r: String)
    ensures
        r@ == format_item(format, s@),
{
    match format {
        ItemFormat::Plain => s.clone(),
        ItemFormat::Quoted => quote_debug(s.as_str()),
        ItemFormat::ColonQuoted => {
            let mut t = String::from_str(":");
            t.append(s.as_str());
            proof {
                reveal_strlit(":");
                assert(t@ =~= seq![':'] + s@);
            }
            quote_debug(t.as_str())
        },
    }
}

/// The items of the first parameter, each formatted; `None` where the
/// parameter is absent, not a list, or holds an item that is not text.
pub fn get_str_array(param: Option<&ParamValue>, format: ItemFormat) -> (r: Option<Vec<String>>)
    ensures
        r is Some == formatted_items(param, format) is Some,
        r matches Some(v) ==> views(v@) == formatted_items(param, format)->Some_0,
{
    match param {
        Some(ParamValue::List(items)) => {
            let mut out: Vec<String> = Vec::new();
            let mut i: usize = 0;
            while i < items.len()
                invariant
                    param matches Some(ParamValue::List(its)) && its@ == items@,
                    i <= items@.len(),
                    forall|j: int| 0 <= j < i ==> items@[j] is Text,
                    views(out@) =~= Seq::new(
                        i as nat,
                        |j: int| format_item(format, items@[j]->Text_0@),
                    ),
                decreases items@.len() - i,
            {
                match &items[i] {
                    ParamValue::Text(s) => {
                        let ghost before = views(out@);
                        let f = format_one(format, s);
                        out.push(f);
                        assert(views(out@) =~= before.push(f@));
                    },
                    _ => {
                        assert(!all_text(items@));
                        return None;
                    },
                }
                i = i + 1;
            }
            Some(out)
        },
        _ => None,
    }
}

/// Joins the formatted items of a list parameter with `", "`.
fn join_formatted(param: Option<&ParamValue>, format: ItemFormat) -> (r: Result<
    String,
    HelperError,
>)
    ensures
        out_view(r) == joined_items(param, format),
{
    match get_str_array(param, format) {
        Some(parts) => Ok(join_strings(&parts, ", ")),
        None => Err(HelperError::MissingArray),
    }
}

/// The `html-escape` helper: the first parameter, HTML-escaped.
pub fn html_escape(param: Option<&ParamValue>) -> (r: String)
    ensures
        r@ == escaped_html(param_text(param)),
{
    let s = get_str(param);
    escape_html_text(s.as_str())
}

/// The `join` helper: the items of a list of strings joined by `", "`.
pub fn join(param: Option<&ParamValue>) -> (r: Result<String, HelperError>)
    ensures
        out_view(r) == joined_items(param, ItemFormat::Plain),
{
    join_formatted(param, ItemFormat::Plain)
}

/// The `quote-and-join` helper: each item quoted, then joined by `", "`.
pub fn quote_and_join(param: Option<&ParamValue>) -> (r: Result<String, HelperError>)
    ensures
        out_view(r) == joined_items(param, ItemFormat::Quoted),
{
    join_formatted(param, ItemFormat::Quoted)
}

/// The `quote-and-join-colon-prefix` helper: each item with a leading colon,
/// quoted, then joined by `", "`.
pub fn quote_and_join_colon_prefix(param: Option<&ParamValue>) -> (r: Result<String, HelperError>)
    ensures
        out_view(r) == joined_items(param, ItemFormat::ColonQuoted),
{
    join_formatted(param, ItemFormat::ColonQuoted)
}

/// The `snake-case` helper.
pub fn snake_case(param: Option<&ParamValue>) -> (r: String)
    ensures
        r@ == snake_of(param_text(param)),
{
    let s = get_str(param);
    to_snake(s.as_str())
}

/// What `reverse-domain` writes.
pub open spec fn reverse_domain_output(param: Option<&ParamValue>) -> Seq<char> {
    reversed_domain(param_text(param))
}

/// What `reverse-domain-snake-case` writes.
pub open spec fn reverse_domain_snake_output(param: Option<&ParamValue>) -> Seq<char> {
    snake_of(reversed_domain(param_text(param)))
}

/// The `reverse-domain` helper.
pub fn reverse_domain(param: Option<&ParamValue>) -> (r: String)
    ensures
        r@ == reverse_domain_output(param),
{
    let s = get_str(param);
    crate::text::reverse_domain(s.as_str())
}

/// The `reverse-domain-snake-case` helper: the reversed domain, in snake case.
pub fn reverse_domain_snake_case(param: Option<&ParamValue>) -> (r: String)
    ensures
        r@ == reverse_domain_snake_output(param),
{
    let s = get_str(param);
    let reversed = crate::text::reverse_domain(s.as_str());
    to_snake(reversed.as_str())
}


/// `app.root-dir` as the context holds it.
pub open spec fn root_dir_of(ctx: TemplateContext) -> Result<Seq<char>, HelperError> {
    match ctx.get_spec("app"@) {
        Some(ContextValue::Record(fields)) => match lookup(fields@, "root-dir"@) {
            Some(FieldValue::Text(s)) => Ok(s@),
            _ => Err(HelperError::MissingContextField),
        },
        _ => Err(HelperError::MissingContextField),
    }
}

/// What `prefix-path` writes for the path `path`.
pub open spec fn prefixed(ctx: TemplateContext, path: Seq<char>) -> Result<Seq<char>, HelperError> {
    match root_dir_of(ctx) {
        Ok(root) => Ok(joined(root, path)),
        Err(e) => Err(e),
    }
}

/// What `unprefix-path` writes for the path `path`.
pub open spec fn unprefixed(ctx: TemplateContext, path: Seq<char>) -> Result<Seq<char>, HelperError> {
    match root_dir_of(ctx) {
        Ok(root) => if is_under(root, path) {
            Ok(relative_to(root, path))
        } else {
            Err(HelperError::PathNotUnderRoot)
        },
        Err(e) => Err(e),
    }
}

/// The project's root directory, `app.root-dir`, from the template context.
pub fn app_root(ctx: &TemplateContext) -> (r: Result<String, HelperError>)
    ensures
        out_view(r) == root_dir_of(*ctx),
{
    proof {
        reveal_strlit("app");
        reveal_strlit("root-dir");
    }
    let app_key = String::from_str("app");
    match get_entry(&ctx.entries, &app_key) {
        Some(ContextValue::Record(fields)) => {
            let root_key = String::from_str("root-dir");
            match get_entry(fields, &root_key) {
                Some(FieldValue::Text(s)) => Ok(s.clone()),
                _ => Err(HelperError::MissingContextField),
            }
        },
        _ => Err(HelperError::MissingContextField),
    }
}

/// The `prefix-path` helper: the first parameter placed under `app.root-dir`.
pub fn prefix_path(ctx: &TemplateContext, param: Option<&ParamValue>) -> (r: Result<
    String,
    HelperError,
>)
    ensures
        out_view(r) == prefixed(*ctx, param_text(param)),
{
    let root = app_root(ctx)?;
    let path = get_str(param);
    Ok(join_under_root(root.as_str(), path.as_str()))
}

/// The `unprefix-path` helper: the first parameter relative to `app.root-dir`.
pub fn unprefix_path(ctx: &TemplateContext, param: Option<&ParamValue>) -> (r: Result<
    String,
    HelperError,
>)
    ensures
        out_view(r) == unprefixed(*ctx, param_text(param)),
        r matches Ok(rel) ==> !is_absolute(rel@),
{
    let root = app_root(ctx)?;
    let path = get_str(param);
    match strip_root(root.as_str(), path.as_str()) {
        Some(rel) => Ok(rel),
        None => Err(HelperError::PathNotUnderRoot),
    }
}

/// `unprefix-path` undoes `prefix-path`: a relative path placed under the
/// project root and taken back out of it comes back as a relative path with
/// the same components.
pub proof fn lemma_prefix_unprefix_round_trip(ctx: TemplateContext, path: Seq<char>)
    requires
        root_dir_of(ctx) is Ok,
        !is_absolute(path),
    ensures
        prefixed(ctx, path) is Ok,
        unprefixed(ctx, prefixed(ctx, path)->Ok_0) is Ok,
        components(unprefixed(ctx, prefixed(ctx, path)->Ok_0)->Ok_0) == components(path),
        !is_absolute(unprefixed(ctx, prefixed(ctx, path)->Ok_0)->Ok_0),
{
    lemma_join_then_strip(root_dir_of(ctx)->Ok_0, path);
}

/// `unprefix-path` fails with `PathNotUnderRoot` on every path that does not
/// lie lexically under the project root.
pub proof fn lemma_unprefix_outside_root(ctx: TemplateContext, path: Seq<char>)
    requires
        root_dir_of(ctx) is Ok,
        !is_under(root_dir_of(ctx)->Ok_0, path),
    ensures
        unprefixed(ctx, path) == Err::<Seq<char>, HelperError>(HelperError::PathNotUnderRoot),
{
}

/// The list helpers fail with `MissingArray` on a parameter that is not a
/// list: absent, text, or any other value.
pub proof fn lemma_list_helpers_need_lists(param: Option<&ParamValue>, format: ItemFormat)
    requires
        !(param matches Some(ParamValue::List(_))),
    ensures
        joined_items(param, format) == Err::<Seq<char>, HelperError>(HelperError::MissingArray),
{
}

/// `reverse-domain-snake-case` writes what `snake-case` makes of the output of
/// `reverse-domain`.
pub proof fn lemma_reverse_domain_snake_case(param: Option<&ParamValue>)
    ensures
        reverse_domain_snake_output(param) == snake_of(reverse_domain_output(param)),
{
}

} // verus!
