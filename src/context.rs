use vstd::prelude::*;
use vstd::string::*;
use crate::table::{lookup, set_entry, unique_keys};

verus! {

/// A field of a configuration facet, as the template helpers read it.
#[derive(Clone, Debug)]
pub enum FieldValue {
    /// A field that holds valid text.
    Text(String),
    /// Any other value (a number, a list, a path that is not valid text).
    Other,
}

/// A top-level value of the template context.
#[derive(Clone, Debug)]
pub enum ContextValue {
    Text(String),
    /// A serialized configuration facet: its fields by name.
    Record(Vec<(String, FieldValue)>),
}

/// The data that templates are rendered with, keyed by name.
#[derive(Clone, Debug)]
pub struct TemplateContext {
    pub entries: Vec<(String, ContextValue)>,
}

/// The key under which the invoking binary's name is stored.
pub open spec fn binary_key() -> Seq<char> {
    "tauri-binary"@
}

/// The character view of an optional string.
pub open spec fn opt_view(o: Option<String>) -> Option<Seq<char>> {
    match o {
        Some(s) => Some(s@),
        None => None,
    }
}

/// The name stored for the invoking binary: the first program argument, or
/// `cargo` where there is none or it is empty.
pub open spec fn binary_name(first_arg: Option<Seq<char>>) -> Seq<char> {
    match first_arg {
        Some(a) => if a.len() > 0 {
            a
        } else {
            "cargo"@
        },
        None => "cargo"@,
    }
}

impl TemplateContext {
    pub open spec fn get_spec(&self, key: Seq<char>) -> Option<ContextValue> {
        lookup(self.entries@, key)
    }

    /// Well-formed: no key stands twice, as in a map.
    pub open spec fn wf(&self) -> bool {
        unique_keys(self.entries@)
    }

    /// An empty context.
    pub fn new() -> (r: TemplateContext)
        ensures
            r.wf(),
            forall|k: Seq<char>| r.get_spec(k) is None,
    {
        TemplateContext { entries: Vec::new() }
    }

    /// Stores `value` under `key`, replacing what was there.
    pub fn insert(&mut self, key: String, value: ContextValue)
        ensures
            old(self).wf() ==> final(self).wf(),
            forall|q: Seq<char>|
                #![auto]
                final(self).get_spec(q) == (if q == key@ {
                    Some(value)
                } else {
                    old(self).get_spec(q)
                }),
    {
        set_entry(&mut self.entries, key, value);
    }
}

/// Builds the template context from the serialized facets: `app`, `android`,
/// `apple` where the host can generate projects for it, and the invoking
/// binary's name under `tauri-binary`.
pub fn build_template_context(
    app: ContextValue,
    android: ContextValue,
    apple: Option<ContextValue>,
    first_arg: Option<String>,
) -> (r: TemplateContext)
    ensures
        r.wf(),
        r.get_spec("app"@) == Some(app),
        r.get_spec("android"@) == Some(android),
        r.get_spec("apple"@) == apple,
        r.get_spec(binary_key()) matches Some(ContextValue::Text(b)) && b@ == binary_name(
            opt_view(first_arg),
        ) && b@.len() > 0,
        forall|k: Seq<char>|
            k != "app"@ && k != "android"@ && k != "apple"@ && k != binary_key() ==> r.get_spec(
                k,
            ) is None,
{
    proof {
        reveal_strlit("app");
        reveal_strlit("android");
        reveal_strlit("apple");
        reveal_strlit("tauri-binary");
        reveal_strlit("cargo");
        assert("app"@.len() == 3 && "apple"@.len() == 5 && "android"@.len() == 7);
        assert("tauri-binary"@.len() == 12);
    }
    let mut ctx = TemplateContext::new();
    ctx.insert(String::from_str("app"), app);
    match apple {
        Some(a) => ctx.insert(String::from_str("apple"), a),
        None => {},
    }
    ctx.insert(String::from_str("android"), android);
    let name = match first_arg {
        Some(a) => if a.as_str().unicode_len() > 0 {
            a
        } else {
            String::from_str("cargo")
        },
        None => String::from_str("cargo"),
    };
    ctx.insert(String::from_str("tauri-binary"), ContextValue::Text(name));
    ctx
}

/// The name stored for the invoking binary is never empty.
pub proof fn lemma_binary_name_present(first_arg: Option<Seq<char>>)
    ensures
        binary_name(first_arg).len() > 0,
{
    reveal_strlit("cargo");
}

} // verus!
