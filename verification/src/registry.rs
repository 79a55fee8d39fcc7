//! The script registry: the names of the scripts that may be run.

use vstd::prelude::*;
use vstd::string::*;
use crate::names::{has_script_extension, is_script_file};

verus! {

/// The test that keeps the scripts among the entries of a directory.
pub open spec fn is_script() -> spec_fn(Seq<char>) -> bool {
    |file_name: Seq<char>| has_script_extension(file_name)
}

/// The test that keeps every name but `name`.
pub open spec fn other_than(name: Seq<char>) -> spec_fn(Seq<char>) -> bool {
    |other: Seq<char>| other != name
}

/// What a scan of the script directory leaves in the registry: the scripts
/// among the entries found, in the order found, and nothing where the
/// directory could not be read.
pub open spec fn scanned_scripts(entries: Option<Seq<Seq<char>>>) -> Seq<Seq<char>> {
    match entries {
        Some(names) => names.filter(is_script()),
        None => Seq::empty(),
    }
}

/// The registry after `name` was registered: a name is held once.
pub open spec fn with_script(scripts: Seq<Seq<char>>, name: Seq<char>) -> Seq<Seq<char>> {
    if scripts.contains(name) {
        scripts
    } else {
        scripts.push(name)
    }
}

/// The known scripts, by file name, in the order in which they were found.
pub struct ScriptRegistry {
    scripts: Vec<String>,
}

impl View for ScriptRegistry {
    type V = Seq<Seq<char>>;

    closed spec fn view(&self) -> Seq<Seq<char>> {
        self.scripts.deep_view()
    }
}

/// The names in `names`, each as a value of its own.
fn copy_names(names: &Vec<String>) -> (copy: Vec<String>)
    ensures
        copy.deep_view() == names.deep_view(),
{
    let mut copy: Vec<String> = Vec::new();
    let mut i: usize = 0;
    while i < names.len()
        invariant
            i <= names@.len(),
            copy@.len() == i,
            forall|j: int| 0 <= j < i ==> (#[trigger] copy@[j])@ == names@[j]@,
        decreases names@.len() - i,
    {
        copy.push(names[i].clone());
        i = i + 1;
    }
    assert(copy.deep_view() =~= names.deep_view());
    copy
}

impl ScriptRegistry {
    /// A registry that knows no script.
    pub fn new() -> (registry: ScriptRegistry)
        ensures
            registry@ == Seq::<Seq<char>>::empty(),
    {
        let registry = ScriptRegistry { scripts: Vec::new() };
        assert(registry.scripts.deep_view() =~= Seq::<Seq<char>>::empty());
        registry
    }

    /// Replaces the known scripts by those among `entries`, the file names
    /// that a scan of the script directory found. `None` stands for a scan
    /// that failed and leaves the registry empty. Returns how many scripts
    /// are known afterwards.
    pub fn refresh(&mut self, entries: Option<Vec<String>>) -> (count: usize)
        ensures
            final(self)@ == scanned_scripts(
                match entries {
                    Some(names) => Some(names.deep_view()),
                    None => None,
                },
            ),
            count == final(self)@.len(),
    {
        let mut scripts: Vec<String> = Vec::new();
        if let Some(names) = entries {
            let mut i: usize = 0;
            assert(names.deep_view().take(0) =~= Seq::<Seq<char>>::empty());
            assert(scripts.deep_view() =~= Seq::<Seq<char>>::empty());
            proof {
                reveal(Seq::filter);
            }
            while i < names.len()
                invariant
                    i <= names@.len(),
                    scripts.deep_view() == names.deep_view().take(i as int).filter(is_script()),
                decreases names@.len() - i,
            {
                let ghost before = scripts.deep_view();
                let ghost seen = names.deep_view().take(i as int);
                proof {
                    seen.lemma_filter_push(names@[i as int]@, is_script());
                    assert(names.deep_view().take(i + 1) =~= seen.push(names@[i as int]@));
                }
                if is_script_file(names[i].as_str()) {
                    scripts.push(names[i].clone());
                    assert(scripts.deep_view() =~= before.push(names@[i as int]@));
                }
                i = i + 1;
            }
            assert(names.deep_view().take(names@.len() as int) =~= names.deep_view());
        }
        self.scripts = scripts;
        self.scripts.len()
    }

    /// Whether a script of this name is known.
    pub fn contains(&self, name: &str) -> (known: bool)
        ensures
            known == self@.contains(name@),
    {
        let wanted = String::from_str(name);
        let mut i: usize = 0;
        while i < self.scripts.len()
            invariant
                i <= self.scripts@.len(),
                wanted@ == name@,
                forall|j: int| 0 <= j < i ==> (#[trigger] self.scripts@[j])@ != name@,
            decreases self.scripts@.len() - i,
        {
            if self.scripts[i] == wanted {
                assert(self@[i as int] == name@);
                return true;
            }
            i = i + 1;
        }
        assert forall|j: int| 0 <= j < self@.len() implies self@[j] != name@ by {
            assert(self@[j] == self.scripts@[j]@);
        }
        false
    }

    /// The known names, in the order in which they were found.
    pub fn list(&self) -> (names: Vec<String>)
        ensures
            names.deep_view() == self@,
    {
        copy_names(&self.scripts)
    }

    /// How many scripts are known.
    pub fn len(&self) -> (count: usize)
        ensures
            count == self@.len(),
    {
        self.scripts.len()
    }

    /// Makes `name` known at once, without waiting for the next scan.
    pub fn register(&mut self, name: &str)
        ensures
            final(self)@ == with_script(old(self)@, name@),
    {
        if !self.contains(name) {
            let ghost before = self.scripts.deep_view();
            self.scripts.push(String::from_str(name));
            assert(self.scripts.deep_view() =~= before.push(name@));
        }
    }

    /// Forgets `name`.
    pub fn unregister(&mut self, name: &str)
        ensures
            final(self)@ == old(self)@.filter(other_than(name@)),
    {
        let wanted = String::from_str(name);
        let mut kept: Vec<String> = Vec::new();
        let mut i: usize = 0;
        assert(self.scripts.deep_view().take(0) =~= Seq::<Seq<char>>::empty());
        assert(kept.deep_view() =~= Seq::<Seq<char>>::empty());
        proof {
            reveal(Seq::filter);
        }
        while i < self.scripts.len()
            invariant
                i <= self.scripts@.len(),
                wanted@ == name@,
                kept.deep_view() == self.scripts.deep_view().take(i as int).filter(
                    other_than(name@),
                ),
            decreases self.scripts@.len() - i,
        {
            let ghost before = kept.deep_view();
            let ghost seen = self.scripts.deep_view().take(i as int);
            proof {
                seen.lemma_filter_push(self.scripts@[i as int]@, other_than(name@));
                assert(self.scripts.deep_view().take(i + 1) =~= seen.push(
                    self.scripts@[i as int]@,
                ));
            }
            if !(self.scripts[i] == wanted) {
                kept.push(self.scripts[i].clone());
                assert(kept.deep_view() =~= before.push(self.scripts@[i as int]@));
            }
            i = i + 1;
        }
        assert(self.scripts.deep_view().take(self.scripts@.len() as int)
            =~= self.scripts.deep_view());
        self.scripts = kept;
    }
}

} // verus!
