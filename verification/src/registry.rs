//! The file registry: which display name stands for which file on disk.
//!
//! Names are unique, and none holds a line feed, which separates the
//! records of a LIST response. Entries keep the order in which their names
//! were first inserted.

use vstd::prelude::*;
use vstd::utf8::{decode_utf8, encode_utf8, encode_utf8_decode_utf8};

verus! {

/// One registered file.
#[derive(Debug, Clone, PartialEq, Eq)]
pub struct FileEntry {
    /// The display name, which the Switch refers to.
    pub name: String,
    /// Where the file lies on disk.
    pub path: String,
}

/// A registry entry as a mathematical value: name and path.
pub type EntryModel = (Seq<char>, Seq<char>);

/// The name and path of each entry.
pub open spec fn entry_models(entries: Seq<FileEntry>) -> Seq<EntryModel> {
    Seq::new(entries.len(), |i: int| (entries[i].name@, entries[i].path@))
}

/// A name may be registered when its UTF-8 bytes hold no line feed.
pub open spec fn valid_name(name: Seq<char>) -> bool {
    forall|k: int| 0 <= k < encode_utf8(name).len() ==> encode_utf8(name)[k] != 0x0a
}

/// Whether some entry has the name.
pub open spec fn has_name(entries: Seq<EntryModel>, name: Seq<char>) -> bool {
    exists|i: int| 0 <= i < entries.len() && (#[trigger] entries[i]).0 == name
}

/// The place of the entry that has the name, if there is one.
pub open spec fn index_of(entries: Seq<EntryModel>, name: Seq<char>) -> int {
    choose|i: int| 0 <= i < entries.len() && (#[trigger] entries[i]).0 == name
}

/// No two entries share a name, and every name is valid.
pub open spec fn registry_wf(entries: Seq<EntryModel>) -> bool {
    &&& forall|i: int, j: int|
        0 <= i < j < entries.len() ==> (#[trigger] entries[i]).0 != (#[trigger] entries[j]).0
    &&& forall|i: int| 0 <= i < entries.len() ==> valid_name((#[trigger] entries[i]).0)
}

/// The path registered under the name.
pub open spec fn path_of(entries: Seq<EntryModel>, name: Seq<char>) -> Option<Seq<char>> {
    if has_name(entries, name) {
        Some(entries[index_of(entries, name)].1)
    } else {
        None
    }
}

/// The entries after `name` was registered for `path`: an entry of that
/// name gets the new path and keeps its place, a new name comes last, and
/// an invalid name changes nothing.
pub open spec fn with_entry(entries: Seq<EntryModel>, name: Seq<char>, path: Seq<char>) -> Seq<
    EntryModel,
> {
    if !valid_name(name) {
        entries
    } else if has_name(entries, name) {
        entries.update(index_of(entries, name), (name, path))
    } else {
        entries.push((name, path))
    }
}

/// The entries after the name was taken out.
pub open spec fn without_name(entries: Seq<EntryModel>, name: Seq<char>) -> Seq<EntryModel> {
    if has_name(entries, name) {
        entries.remove(index_of(entries, name))
    } else {
        entries
    }
}

/// Why a file could not be registered.
#[derive(Debug, Clone, Copy, PartialEq, Eq, Structural)]
pub enum RegistryError {
    /// The name holds a line feed.
    InvalidName,
}

/// The mapping from display names to files.
#[derive(Debug)]
pub struct FileRegistry {
    entries: Vec<FileEntry>,
}

impl View for FileRegistry {
    type V = Seq<EntryModel>;

    closed spec fn view(&self) -> Seq<EntryModel> {
        entry_models(self.entries@)
    }
}

/// Whether the UTF-8 bytes of `name` hold no line feed.
pub fn is_valid_name(name: &str) -> (valid: bool)
    ensures
        valid == valid_name(name@),
{
    let bytes = name.as_bytes();
    let mut k: usize = 0;
    while k < bytes.len()
        invariant
            k <= bytes@.len(),
            bytes@ == encode_utf8(name@),
            forall|j: int| 0 <= j < k ==> bytes@[j] != 0x0a,
        decreases bytes@.len() - k,
    {
        if bytes[k] == 0x0a {
            return false;
        }
        k += 1;
    }
    true
}

/// Whether two strings hold the same text.
pub fn same_text(a: &str, b: &str) -> (same: bool)
    ensures
        same == (a@ == b@),
{
    let left = a.as_bytes();
    let right = b.as_bytes();
    if left.len() != right.len() {
        return false;
    }
    let mut k: usize = 0;
    while k < left.len()
        invariant
            k <= left@.len(),
            left@.len() == right@.len(),
            left@ == encode_utf8(a@),
            right@ == encode_utf8(b@),
            forall|j: int| 0 <= j < k ==> left@[j] == right@[j],
        decreases left@.len() - k,
    {
        if left[k] != right[k] {
            return false;
        }
        k += 1;
    }
    proof {
        assert(left@ =~= right@);
        encode_utf8_decode_utf8(a@);
        encode_utf8_decode_utf8(b@);
    }
    true
}

impl FileRegistry {
    #[verifier::type_invariant]
    spec fn inv(self) -> bool {
        registry_wf(entry_models(self.entries@))
    }

    pub fn new() -> (registry: Self)
        ensures
            registry@ == Seq::<EntryModel>::empty(),
            registry_wf(registry@),
    {
        let registry = FileRegistry { entries: Vec::new() };
        assert(entry_models(registry.entries@) =~= Seq::<EntryModel>::empty());
        registry
    }

    /// The number of registered files.
    pub fn len(&self) -> (len: usize)
        ensures
            len == self@.len(),
            registry_wf(self@),
    {
        proof {
            use_type_invariant(self);
        }
        self.entries.len()
    }

    pub fn is_empty(&self) -> (empty: bool)
        ensures
            empty == (self@.len() == 0),
    {
        self.entries.len() == 0
    }

    /// The place of the entry named `name`.
    fn position(&self, name: &str) -> (found: Option<usize>)
        ensures
            registry_wf(self@),
            match found {
                Some(at) => at < self@.len() && self@[at as int].0 == name@ && has_name(
                    self@,
                    name@,
                ) && index_of(self@, name@) == at,
                None => !has_name(self@, name@),
            },
    {
        proof {
            use_type_invariant(self);
        }
        let mut i: usize = 0;
        while i < self.entries.len()
            invariant
                i <= self.entries@.len(),
                registry_wf(entry_models(self.entries@)),
                forall|j: int| 0 <= j < i ==> (#[trigger] entry_models(self.entries@)[j]).0 != name@,
            decreases self.entries@.len() - i,
        {
            if same_text(self.entries[i].name.as_str(), name) {
                assert(entry_models(self.entries@)[i as int].0 == name@);
                return Some(i);
            }
            i += 1;
        }
        None
    }

    /// Looks a name up.
    pub fn lookup(&self, name: &str) -> (path: Option<&String>)
        ensures
            registry_wf(self@),
            match path {
                Some(p) => path_of(self@, name@) == Some(p@),
                None => path_of(self@, name@) is None,
            },
    {
        match self.position(name) {
            Some(at) => Some(&self.entries[at].path),
            None => None,
        }
    }

    /// Whether a name is registered.
    pub fn contains(&self, name: &str) -> (held: bool)
        ensures
            held == has_name(self@, name@),
    {
        self.position(name).is_some()
    }

    /// Registers `path` under `name` and hands back the path that the name
    /// stood for before, if any. A name that holds a line feed is refused
    /// and the registry stays as it was.
    pub fn insert(&mut self, name: String, path: String) -> (replaced: Result<
        Option<String>,
        RegistryError,
    >)
        ensures
            final(self)@ == with_entry(old(self)@, name@, path@),
            registry_wf(final(self)@),
            match replaced {
                Ok(Some(previous)) => valid_name(name@) && path_of(old(self)@, name@) == Some(
                    previous@,
                ),
                Ok(None) => valid_name(name@) && path_of(old(self)@, name@) is None,
                Err(error) => !valid_name(name@) && error == RegistryError::InvalidName,
            },
            valid_name(name@) ==> path_of(final(self)@, name@) == Some(path@),
    {
        proof {
            use_type_invariant(&*self);
        }
        if !is_valid_name(name.as_str()) {
            return Err(RegistryError::InvalidName);
        }
        let ghost before = entry_models(self.entries@);
        match self.position(name.as_str()) {
            Some(at) => {
                let mut entries: Vec<FileEntry> = Vec::new();
                std::mem::swap(&mut entries, &mut self.entries);
                let previous = entries.remove(at);
                entries.insert(at, FileEntry { name, path });
                proof {
                    let after = entry_models(entries@);
                    assert(after =~= before.update(at as int, (name@, path@)));
                    assert(after[at as int].0 == name@);
                }
                std::mem::swap(&mut entries, &mut self.entries);
                Ok(Some(previous.path))
            },
            None => {
                let mut entries: Vec<FileEntry> = Vec::new();
                std::mem::swap(&mut entries, &mut self.entries);
                entries.push(FileEntry { name, path });
                proof {
                    let after = entry_models(entries@);
                    assert(after =~= before.push((name@, path@)));
                    assert(after[after.len() - 1].0 == name@);
                }
                std::mem::swap(&mut entries, &mut self.entries);
                Ok(None)
            },
        }
    }

    /// Takes a name out and hands back the path it stood for, if any.
    pub fn remove(&mut self, name: &str) -> (removed: Option<String>)
        ensures
            final(self)@ == without_name(old(self)@, name@),
            registry_wf(final(self)@),
            match removed {
                Some(previous) => path_of(old(self)@, name@) == Some(previous@),
                None => path_of(old(self)@, name@) is None,
            },
            !has_name(final(self)@, name@),
    {
        proof {
            use_type_invariant(&*self);
        }
        let ghost before = entry_models(self.entries@);
        match self.position(name) {
            Some(at) => {
                let mut entries: Vec<FileEntry> = Vec::new();
                std::mem::swap(&mut entries, &mut self.entries);
                let previous = entries.remove(at);
                proof {
                    let after = entry_models(entries@);
                    assert(after =~= before.remove(at as int));
                    assert forall|i: int| 0 <= i < after.len() implies (#[trigger] after[i]).0
                        != name@ by {
                        if i < at {
                            assert(after[i] == before[i]);
                        } else {
                            assert(after[i] == before[i + 1]);
                        }
                    }
                }
                std::mem::swap(&mut entries, &mut self.entries);
                Some(previous.path)
            },
            None => None,
        }
    }

    /// Empties the registry and says how many files were taken out.
    pub fn clear(&mut self) -> (count: usize)
        ensures
            final(self)@ == Seq::<EntryModel>::empty(),
            count == old(self)@.len(),
    {
        let mut entries: Vec<FileEntry> = Vec::new();
        std::mem::swap(&mut entries, &mut self.entries);
        assert(entry_models(self.entries@) =~= Seq::<EntryModel>::empty());
        entries.len()
    }

    /// A copy of the entries, in order, for use without the registry.
    pub fn snapshot(&self) -> (entries: Vec<FileEntry>)
        ensures
            entry_models(entries@) == self@,
            registry_wf(self@),
    {
        proof {
            use_type_invariant(self);
        }
        let mut copy: Vec<FileEntry> = Vec::new();
        let mut i: usize = 0;
        while i < self.entries.len()
            invariant
                i <= self.entries@.len(),
                entry_models(copy@) == entry_models(self.entries@).take(i as int),
            decreases self.entries@.len() - i,
        {
            let ghost before = copy@;
            let entry = &self.entries[i];
            let name = entry.name.clone();
            let path = entry.path.clone();
            copy.push(FileEntry { name, path });
            i += 1;
            proof {
                let done = entry_models(self.entries@).take(i as int);
                assert(entry_models(copy@) =~= entry_models(before).push((name@, path@)));
                assert(done =~= entry_models(self.entries@).take(i - 1).push((name@, path@)));
            }
        }
        assert(entry_models(self.entries@).take(i as int) =~= entry_models(self.entries@));
        copy
    }
}

impl Clone for FileRegistry {
    fn clone(&self) -> (copy: Self)
        ensures
            copy@ == self@,
    {
        FileRegistry { entries: self.snapshot() }
    }
}

impl Default for FileRegistry {
    fn default() -> (registry: Self)
        ensures
            registry@ == Seq::<EntryModel>::empty(),
    {
        FileRegistry::new()
    }
}

} // verus!
