use vstd::prelude::*;

use crate::text::str_eq;

verus! {

/// How one language is shown to users, compiled and run.
#[derive(Debug)]
pub struct LanguageConfig {
    /// Name shown to users.
    pub name: String,
    /// Icon of the language in the tabler icon set.
    pub tabler_icon: String,
    /// Editor contribution that highlights the language.
    pub monaco_contribution: String,
    /// Code shown in the editor at first.
    pub default_code: String,
    /// File the submitted program is saved to.
    pub file_name: String,
    /// Command that compiles the program; empty where nothing is compiled.
    pub compile_cmd: String,
    /// Command that runs the program, fed the input on its standard input.
    pub run_cmd: String,
}

impl Clone for LanguageConfig {
    fn clone(&self) -> (r: Self)
        ensures
            r == *self,
    {
        LanguageConfig {
            name: self.name.clone(),
            tabler_icon: self.tabler_icon.clone(),
            monaco_contribution: self.monaco_contribution.clone(),
            default_code: self.default_code.clone(),
            file_name: self.file_name.clone(),
            compile_cmd: self.compile_cmd.clone(),
            run_cmd: self.run_cmd.clone(),
        }
    }
}

/// The largest program accepted when the configuration names no limit, in bytes.
pub fn default_max_program_length() -> (r: usize)
    ensures
        r == 100_000,
{
    100_000
}

/// Configuration of the runner: the program length limit and the languages,
/// each under a distinct key.
#[derive(Debug)]
pub struct RunConfig {
    /// Largest accepted program, in bytes.
    pub max_program_length: usize,
    /// The languages, each under its key.
    pub languages: Vec<(String, LanguageConfig)>,
    /// Key of the language offered first.
    pub default_language: String,
}

impl RunConfig {
    /// The languages by key, in the order they were added.
    pub open spec fn entries(&self) -> Seq<(String, LanguageConfig)> {
        self.languages@
    }

    /// No key occurs twice.
    pub open spec fn wf(&self) -> bool {
        forall|i: int, j: int|
            0 <= i < j < self.languages@.len() ==> #[trigger] self.languages@[i].0@
                != #[trigger] self.languages@[j].0@
    }

    /// A language is configured under `key`.
    pub open spec fn has_language(&self, key: Seq<char>) -> bool {
        exists|i: int| 0 <= i < self.languages@.len() && #[trigger] self.languages@[i].0@ == key
    }

    /// The language configured under `key`, where there is one.
    pub open spec fn language_spec(&self, key: Seq<char>) -> LanguageConfig
        recommends
            self.has_language(key),
    {
        let i = choose|i: int| 0 <= i < self.languages@.len() && #[trigger] self.languages@[i].0@ == key;
        self.languages@[i].1
    }

    /// A configuration with no language.
    pub fn new(max_program_length: usize, default_language: String) -> (r: Self)
        ensures
            r.wf(),
            r.max_program_length == max_program_length,
            r.default_language == default_language,
            r.entries().len() == 0,
    {
        RunConfig { max_program_length, languages: Vec::new(), default_language }
    }

    /// Configures `config` under `key`, in place of any language under that key.
    pub fn add_language(&mut self, key: String, config: LanguageConfig)
        requires
            old(self).wf(),
        ensures
            final(self).wf(),
            final(self).max_program_length == old(self).max_program_length,
            final(self).default_language == old(self).default_language,
            final(self).has_language(key@),
            final(self).language_spec(key@) == config,
            forall|k: Seq<char>|
                k != key@ ==> (final(self).has_language(k) == old(self).has_language(k)) && (
                old(self).has_language(k) ==> final(self).language_spec(k) == old(self).language_spec(k)),
    {
        let mut i: usize = 0;
        let mut found = false;
        while !found && i < self.languages.len()
            invariant
                self.wf(),
                i <= self.languages@.len(),
                found ==> i < self.languages@.len() && self.languages@[i as int].0@ == key@,
                forall|j: int| 0 <= j < i ==> #[trigger] self.languages@[j].0@ != key@,
            decreases self.languages@.len() - i, if found { 0int } else { 1int },
        {
            if str_eq(self.languages[i].0.as_str(), key.as_str()) {
                found = true;
            } else {
                i = i + 1;
            }
        }
        let ghost before = self.languages@;
        if found {
            self.languages.set(i, (key, config));
        } else {
            self.languages.push((key, config));
        }
        proof {
            let after = self.languages@;
            assert(after[i as int].0@ == key@);
            assert forall|k: Seq<char>| k != key@ implies (self.has_language(k) == old(self).has_language(k))
                && (old(self).has_language(k) ==> self.language_spec(k) == old(self).language_spec(k)) by {
                if old(self).has_language(k) {
                    let y = choose|y: int| 0 <= y < before.len() && #[trigger] before[y].0@ == k;
                    assert(after[y] == before[y]);
                    assert(after[y].0@ == k);
                    let x = choose|x: int| 0 <= x < after.len() && #[trigger] after[x].0@ == k;
                    if x != y {
                        if x < y {
                            assert(after[x].0@ != after[y].0@);
                        } else {
                            assert(after[y].0@ != after[x].0@);
                        }
                    }
                }
                if self.has_language(k) {
                    let x = choose|x: int| 0 <= x < after.len() && #[trigger] after[x].0@ == k;
                    assert(before[x].0@ == k);
                }
            }
        }
    }

    /// The language configured under `key`.
    pub fn language(&self, key: &str) -> (r: Option<&LanguageConfig>)
        requires
            self.wf(),
        ensures
            r is Some <==> self.has_language(key@),
            r matches Some(c) ==> *c == self.language_spec(key@),
    {
        let mut i: usize = 0;
        while i < self.languages.len()
            invariant
                self.wf(),
                i <= self.languages@.len(),
                forall|j: int| 0 <= j < i ==> #[trigger] self.languages@[j].0@ != key@,
            decreases self.languages@.len() - i,
        {
            if str_eq(self.languages[i].0.as_str(), key) {
                proof {
                    let k = choose|k: int| 0 <= k < self.languages@.len() && #[trigger] self.languages@[k].0@ == key@;
                    assert(self.languages@[i as int].0@ == key@);
                    if k != i {
                        assert(self.languages@[k].0@ != self.languages@[i as int].0@);
                    }
                }
                return Some(&self.languages[i].1);
            }
            i = i + 1;
        }
        None
    }

    /// Each language's key and shown name, in order.
    pub fn get_languages_for_dropdown(&self) -> (r: Vec<(String, String)>)
        ensures
            r@.len() == self.entries().len(),
            forall|i: int|
                0 <= i < r@.len() ==> #[trigger] r@[i] == (self.entries()[i].0, self.entries()[i].1.name),
    {
        let mut r: Vec<(String, String)> = Vec::new();
        let mut i: usize = 0;
        while i < self.languages.len()
            invariant
                i <= self.languages@.len(),
                r@.len() == i,
                forall|j: int|
                    0 <= j < i ==> #[trigger] r@[j] == (self.languages@[j].0, self.languages@[j].1.name),
            decreases self.languages@.len() - i,
        {
            let entry = &self.languages[i];
            r.push((entry.0.clone(), entry.1.name.clone()));
            i = i + 1;
        }
        r
    }
}

} // verus!
