use crate::error::KernelError;
use vstd::prelude::*;

verus! {

/// The languages for which every notebook gets one kernel process.
#[derive(Debug, Clone, Copy, PartialEq, Eq, Structural)]
pub enum Language {
    Go,
    Ruby,
    Python,
}

/// The language a name denotes, if it is one of the configured set.
pub open spec fn language_of(name: Seq<char>) -> Option<Language> {
    if name == "go"@ {
        Some(Language::Go)
    } else if name == "ruby"@ {
        Some(Language::Ruby)
    } else if name == "python"@ {
        Some(Language::Python)
    } else {
        None
    }
}

/// Resolves a language name; any name outside the configured set is
/// rejected without side effects.
pub fn parse_language(name: &str) -> (r: Result<Language, KernelError>)
    ensures
        match language_of(name@) {
            Some(l) => r == Ok::<Language, KernelError>(l),
            None => r matches Err(KernelError::UnsupportedLanguage(n)) && n@ == name@,
        },
{
    proof {
        reveal_strlit("go");
        reveal_strlit("ruby");
        reveal_strlit("python");
    }
    let owned = name.to_owned();
    if owned == "go".to_owned() {
        Ok(Language::Go)
    } else if owned == "ruby".to_owned() {
        Ok(Language::Ruby)
    } else if owned == "python".to_owned() {
        Ok(Language::Python)
    } else {
        Err(KernelError::UnsupportedLanguage(owned))
    }
}

} // verus!

verus! {

/// The number of kernel slots in every runtime set.
pub const SLOT_COUNT: usize = 3;

/// The language of each slot, in spawn order.
pub open spec fn slot_language(i: int) -> Language {
    if i == 0 {
        Language::Go
    } else if i == 1 {
        Language::Ruby
    } else {
        Language::Python
    }
}

/// The kernels of one notebook, one per language. Each slot holds the key
/// under which the host keeps that kernel's process.
#[derive(Debug, Clone, Copy, PartialEq, Eq, Structural)]
pub struct NotebookRuntimes {
    pub go: u64,
    pub ruby: u64,
    pub python: u64,
}

impl NotebookRuntimes {
    pub open spec fn key_of(self, l: Language) -> u64 {
        match l {
            Language::Go => self.go,
            Language::Ruby => self.ruby,
            Language::Python => self.python,
        }
    }

    /// Every key of the set lies below `bound`.
    pub open spec fn keys_below(self, bound: int) -> bool {
        self.go < bound && self.ruby < bound && self.python < bound
    }

    /// Every key of the set is at least `bound`.
    pub open spec fn keys_from(self, bound: int) -> bool {
        self.go >= bound && self.ruby >= bound && self.python >= bound
    }

    /// The process key that serves a language.
    pub fn for_language(&self, l: Language) -> (r: u64)
        ensures
            r == self.key_of(l),
    {
        match l {
            Language::Go => self.go,
            Language::Ruby => self.ruby,
            Language::Python => self.python,
        }
    }
}

/// An attempt to build a notebook's runtime set. Slot `i` is spawned under
/// key `first_key + i`, in the order go, ruby, python.
#[derive(Debug, Clone)]
pub struct Construction {
    pub notebook_id: String,
    pub first_key: u64,
}

impl Construction {
    pub open spec fn wf(&self) -> bool {
        self.first_key <= u64::MAX - SLOT_COUNT
    }

    pub open spec fn runtimes_spec(&self) -> NotebookRuntimes {
        NotebookRuntimes {
            go: (self.first_key + 0) as u64,
            ruby: (self.first_key + 1) as u64,
            python: (self.first_key + 2) as u64,
        }
    }

    /// The language and process key of slot `i`.
    pub fn slot(&self, i: usize) -> (r: (Language, u64))
        requires
            self.wf(),
            i < SLOT_COUNT,
        ensures
            r.0 == slot_language(i as int),
            r.1 == self.first_key + i,
            r.1 == self.runtimes_spec().key_of(r.0),
    {
        let l = if i == 0 {
            Language::Go
        } else if i == 1 {
            Language::Ruby
        } else {
            Language::Python
        };
        (l, self.first_key + i as u64)
    }

    /// The runtime set that this attempt yields once every slot is spawned.
    pub fn runtimes(&self) -> (r: NotebookRuntimes)
        requires
            self.wf(),
        ensures
            r == self.runtimes_spec(),
    {
        NotebookRuntimes { go: self.first_key, ruby: self.first_key + 1, python: self.first_key + 2 }
    }

    /// The keys to terminate when spawning slot `failed` failed: every slot
    /// spawned before it in this attempt, and no other.
    pub fn abandon(&self, failed: usize) -> (r: Vec<u64>)
        requires
            self.wf(),
            failed < SLOT_COUNT,
        ensures
            r@.len() == failed,
            forall|j: int| 0 <= j < failed ==> r@[j] == self.first_key + j,
    {
        let mut r: Vec<u64> = Vec::new();
        let mut j: usize = 0;
        while j < failed
            invariant
                j <= failed,
                failed < SLOT_COUNT,
                self.wf(),
                r@.len() == j,
                forall|k: int| 0 <= k < j ==> r@[k] == self.first_key + k,
            decreases failed - j,
        {
            r.push(self.first_key + j as u64);
            j = j + 1;
        }
        r
    }
}

} // verus!
