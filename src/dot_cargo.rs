use vstd::prelude::*;
use vstd::string::*;
use crate::table::{get_entry, lookup, set_entry, unique_keys};

verus! {

/// The build-target override store: settings by dotted key (`build.target`),
/// in the order the file holds them. Keys this library does not own are kept
/// as they were read.
#[derive(Clone, Debug)]
pub struct DotCargo {
    pub entries: Vec<(String, String)>,
}

/// The key of the default build target.
pub open spec fn default_target_key() -> Seq<char> {
    "build.target"@
}

impl DotCargo {
    pub open spec fn get_spec(&self, key: Seq<char>) -> Option<String> {
        lookup(self.entries@, key)
    }

    /// Well-formed: no key stands twice.
    pub open spec fn wf(&self) -> bool {
        unique_keys(self.entries@)
    }

    /// An empty store, as made where no override file exists yet.
    pub fn new() -> (r: DotCargo)
        ensures
            r.wf(),
            forall|k: Seq<char>| r.get_spec(k) is None,
    {
        DotCargo { entries: Vec::new() }
    }

    /// A store holding the settings read from an existing file.
    pub fn from_entries(entries: Vec<(String, String)>) -> (r: DotCargo)
        ensures
            r.entries@ == entries@,
    {
        DotCargo { entries }
    }

    /// Pins the default build target to `triple`. Every other setting keeps
    /// its value: those the user wrote stay as they were.
    pub fn set_default_target(&mut self, triple: String)
        ensures
            old(self).wf() ==> final(self).wf(),
            final(self).get_spec(default_target_key()) == Some(triple),
            forall|k: Seq<char>|
                #![auto]
                k != default_target_key() ==> final(self).get_spec(k) == old(self).get_spec(k),
    {
        proof {
            reveal_strlit("build.target");
        }
        set_entry(&mut self.entries, String::from_str("build.target"), triple);
    }

    /// The default build target, where one is set.
    pub fn default_target(&self) -> (r: Option<&String>)
        ensures
            r matches Some(t) ==> self.get_spec(default_target_key()) == Some(*t),
            r is None ==> self.get_spec(default_target_key()) is None,
    {
        proof {
            reveal_strlit("build.target");
        }
        let key = String::from_str("build.target");
        get_entry(&self.entries, &key)
    }
}

} // verus!
