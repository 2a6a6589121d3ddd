use crate::error::KernelError;
use crate::ipc::{encode_request, is_single_line, request_line, ExecuteParams, IpcRequest, RequestParams};
use crate::launch::KernelLaunch;
use crate::runtime::{language_of, parse_language, Construction, Language, NotebookRuntimes};
use vstd::prelude::*;

verus! {

/// What the host does to make a notebook's runtime set available.
#[derive(Debug, Clone)]
pub enum EnsurePlan {
    /// The set is registered already: use it; nothing is spawned.
    Ready(NotebookRuntimes),
    /// No set is registered: spawn every slot of the construction, then
    /// register it (or, on a failed spawn, terminate what `abandon` names).
    Construct(Construction),
}

/// One call to a kernel: the construction to complete first, if any, the
/// key of the kernel to talk to, and the request with its encoded line.
#[derive(Debug, Clone)]
pub struct CallPlan {
    pub construct: Option<Construction>,
    pub key: u64,
    pub request: IpcRequest,
    pub line: String,
}

/// Relies on `uuid::Uuid::new_v4` and its text form: a random correlation
/// token. Nothing is promised of its value.
#[verifier::external_body]
fn fresh_token() -> (r: String) {
    uuid::Uuid::new_v4().to_string()
}

/// The registry of runtime sets, keyed by notebook id, and the launch
/// specification of each language.
///
/// Process keys are handed out in increasing order and never reused, so a
/// set built after a shutdown never names a terminated process.
pub struct KernelManager {
    notebooks: Vec<(String, NotebookRuntimes)>,
    go_kernel: KernelLaunch,
    ruby_kernel: KernelLaunch,
    python_kernel: KernelLaunch,
    next_key: u64,
    registry: Ghost<Map<Seq<char>, NotebookRuntimes>>,
}

impl View for KernelManager {
    type V = Map<Seq<char>, NotebookRuntimes>;

    closed spec fn view(&self) -> Map<Seq<char>, NotebookRuntimes> {
        self.registry@
    }
}

impl KernelManager {
    /// The first process key not yet handed out.
    pub closed spec fn key_floor(&self) -> u64 {
        self.next_key
    }

    /// The launch specification configured for a language.
    pub closed spec fn launch_spec(&self, l: Language) -> KernelLaunch {
        match l {
            Language::Go => self.go_kernel,
            Language::Ruby => self.ruby_kernel,
            Language::Python => self.python_kernel,
        }
    }

    pub closed spec fn wf(&self) -> bool {
        &&& forall|i: int, j: int|
            0 <= i < j < self.notebooks@.len() ==> self.notebooks@[i].0@ != self.notebooks@[j].0@
        &&& forall|i: int|
            0 <= i < self.notebooks@.len() ==> #[trigger] self.registry@.contains_key(
                self.notebooks@[i].0@,
            ) && self.registry@[self.notebooks@[i].0@] == self.notebooks@[i].1
        &&& forall|k: Seq<char>|
            #[trigger] self.registry@.contains_key(k) ==> exists|i: int|
                0 <= i < self.notebooks@.len() && self.notebooks@[i].0@ == k
        &&& forall|k: Seq<char>|
            #[trigger] self.registry@.contains_key(k) ==> self.registry@[k].keys_below(
                self.next_key as int,
            )
    }

    /// An empty registry over the three launch specifications.
    pub fn new(go_kernel: KernelLaunch, ruby_kernel: KernelLaunch, python_kernel: KernelLaunch) -> (r:
        Self)
        ensures
            r.wf(),
            r@ == Map::<Seq<char>, NotebookRuntimes>::empty(),
            r.key_floor() == 0,
            r.launch_spec(Language::Go) == go_kernel,
            r.launch_spec(Language::Ruby) == ruby_kernel,
            r.launch_spec(Language::Python) == python_kernel,
    {
        KernelManager {
            notebooks: Vec::new(),
            go_kernel,
            ruby_kernel,
            python_kernel,
            next_key: 0,
            registry: Ghost(Map::empty()),
        }
    }

    /// The launch specification for a language.
    pub fn launch_for(&self, l: Language) -> (r: &KernelLaunch)
        ensures
            *r == self.launch_spec(l),
    {
        match l {
            Language::Go => &self.go_kernel,
            Language::Ruby => &self.ruby_kernel,
            Language::Python => &self.python_kernel,
        }
    }

    fn find(&self, notebook_id: &str) -> (r: Option<usize>)
        requires
            self.wf(),
        ensures
            match r {
                Some(i) => i < self.notebooks@.len() && self.notebooks@[i as int].0@ == notebook_id@
                    && self@.contains_key(notebook_id@),
                None => !self@.contains_key(notebook_id@),
            },
    {
        let wanted = notebook_id.to_owned();
        let mut i: usize = 0;
        while i < self.notebooks.len()
            invariant
                i <= self.notebooks@.len(),
                wanted@ == notebook_id@,
                self.wf(),
                forall|j: int| 0 <= j < i ==> self.notebooks@[j].0@ != notebook_id@,
            decreases self.notebooks@.len() - i,
        {
            if self.notebooks[i].0 == wanted {
                proof {
                    assert(self.registry@.contains_key(self.notebooks@[i as int].0@));
                }
                return Some(i);
            }
            i = i + 1;
        }
        proof {
            if self@.contains_key(notebook_id@) {
                let i = choose|i: int|
                    0 <= i < self.notebooks@.len() && self.notebooks@[i].0@ == notebook_id@;
            }
        }
        None
    }

    /// Whether a runtime set is registered for the notebook.
    pub fn contains_notebook(&self, notebook_id: &str) -> (r: bool)
        requires
            self.wf(),
        ensures
            r == self@.contains_key(notebook_id@),
    {
        self.find(notebook_id).is_some()
    }

    /// The registered runtime set, or the construction of a new one. A
    /// registered set is returned as it is and nothing changes; otherwise
    /// fresh process keys are reserved and the registry stays as it was.
    pub fn ensure_notebook(&mut self, notebook_id: &str) -> (r: Result<EnsurePlan, KernelError>)
        requires
            old(self).wf(),
        ensures
            final(self).wf(),
            final(self)@ == old(self)@,
            old(self)@.contains_key(notebook_id@) ==> r == Ok::<EnsurePlan, KernelError>(
                EnsurePlan::Ready(old(self)@[notebook_id@]),
            ) && *final(self) == *old(self),
            !old(self)@.contains_key(notebook_id@) && old(self).key_floor() <= u64::MAX - 3 ==> (
            r matches Ok(EnsurePlan::Construct(c)) && c.notebook_id@ == notebook_id@ && c.wf()
                && c.first_key == old(self).key_floor() && final(self).key_floor()
                == old(self).key_floor() + 3),
            !old(self)@.contains_key(notebook_id@) && old(self).key_floor() > u64::MAX - 3 ==> (
            r matches Err(KernelError::SpawnFailure(_)) && *final(self) == *old(self)),
            final(self).launch_spec(Language::Go) == old(self).launch_spec(Language::Go),
            final(self).launch_spec(Language::Ruby) == old(self).launch_spec(Language::Ruby),
            final(self).launch_spec(Language::Python) == old(self).launch_spec(Language::Python),
    {
        match self.find(notebook_id) {
            Some(i) => Ok(EnsurePlan::Ready(self.notebooks[i].1)),
            None => {
                if self.next_key > u64::MAX - 3 {
                    return Err(KernelError::SpawnFailure("process keys exhausted".to_owned()));
                }
                let c = Construction { notebook_id: notebook_id.to_owned(), first_key: self.next_key };
                self.next_key = self.next_key + 3;
                proof {
                    assert(self.notebooks@ == old(self).notebooks@);
                    assert(self.registry@ == old(self).registry@);
                    assert forall|k: Seq<char>| #[trigger]
                        self.registry@.contains_key(k) implies self.registry@[k].keys_below(
                        self.next_key as int,
                    ) by {
                        assert(old(self).registry@[k].keys_below(old(self).next_key as int));
                    }
                }
                Ok(EnsurePlan::Construct(c))
            },
        }
    }

    /// Registers the runtime set of a completed construction. It is refused,
    /// and nothing changes, when the notebook already has a set or the
    /// construction's keys were not handed out by this manager.
    pub fn register_notebook(&mut self, c: Construction) -> (r: bool)
        requires
            old(self).wf(),
        ensures
            final(self).wf(),
            r == (!old(self)@.contains_key(c.notebook_id@) && c.wf() && c.first_key + 3
                <= old(self).key_floor()),
            r ==> final(self)@ == old(self)@.insert(c.notebook_id@, c.runtimes_spec()),
            !r ==> final(self)@ == old(self)@,
            final(self).key_floor() == old(self).key_floor(),
            final(self).launch_spec(Language::Go) == old(self).launch_spec(Language::Go),
            final(self).launch_spec(Language::Ruby) == old(self).launch_spec(Language::Ruby),
            final(self).launch_spec(Language::Python) == old(self).launch_spec(Language::Python),
    {
        if self.find(c.notebook_id.as_str()).is_some() {
            return false;
        }
        if c.first_key > u64::MAX - 3 || c.first_key + 3 > self.next_key {
            return false;
        }
        let rt = c.runtimes();
        let ghost id = c.notebook_id@;
        let ghost old_notebooks = self.notebooks@;
        self.notebooks.push((c.notebook_id, rt));
        self.registry = Ghost(self.registry@.insert(id, rt));
        proof {
            assert(self.notebooks@.last().0@ == id);
            assert forall|k: Seq<char>| #[trigger] self.registry@.contains_key(k) implies exists|
                i: int,
            | 0 <= i < self.notebooks@.len() && self.notebooks@[i].0@ == k by {
                if k != id {
                    let i = choose|i: int| 0 <= i < old_notebooks.len() && old_notebooks[i].0@ == k;
                    assert(self.notebooks@[i] == old_notebooks[i]);
                } else {
                    assert(self.notebooks@[old_notebooks.len() as int].0@ == k);
                }
            }
            assert forall|i: int| 0 <= i < self.notebooks@.len() implies #[trigger]
                self.registry@.contains_key(self.notebooks@[i].0@) && self.registry@[self.notebooks@[i].0@]
                == self.notebooks@[i].1 by {
                if i < old_notebooks.len() {
                    assert(self.notebooks@[i] == old_notebooks[i]);
                    assert(old(self).registry@.contains_key(old_notebooks[i].0@));
                }
            }
        }
        true
    }

    /// Removes a notebook's runtime set and hands it back, so that the host
    /// terminates each of its processes. An unknown id changes nothing.
    pub fn shutdown_notebook(&mut self, notebook_id: &str) -> (r: Option<NotebookRuntimes>)
        requires
            old(self).wf(),
        ensures
            final(self).wf(),
            final(self)@ == old(self)@.remove(notebook_id@),
            final(self).key_floor() == old(self).key_floor(),
            old(self)@.contains_key(notebook_id@) ==> r == Some(old(self)@[notebook_id@]),
            !old(self)@.contains_key(notebook_id@) ==> r is None && *final(self) == *old(self),
            final(self).launch_spec(Language::Go) == old(self).launch_spec(Language::Go),
            final(self).launch_spec(Language::Ruby) == old(self).launch_spec(Language::Ruby),
            final(self).launch_spec(Language::Python) == old(self).launch_spec(Language::Python),
    {
        match self.find(notebook_id) {
            None => {
                proof {
                    assert(self.registry@.remove(notebook_id@) =~= self.registry@);
                }
                None
            },
            Some(i) => {
                let ghost old_notebooks = self.notebooks@;
                let ghost id = notebook_id@;
                let entry = self.notebooks.remove(i);
                self.registry = Ghost(self.registry@.remove(id));
                proof {
                    assert forall|k: Seq<char>| #[trigger]
                        self.registry@.contains_key(k) implies exists|j: int|
                        0 <= j < self.notebooks@.len() && self.notebooks@[j].0@ == k by {
                        let j = choose|j: int| 0 <= j < old_notebooks.len() && old_notebooks[j].0@ == k;
                        if j < i {
                            assert(self.notebooks@[j] == old_notebooks[j]);
                        } else {
                            assert(j != i);
                            assert(self.notebooks@[j - 1] == old_notebooks[j]);
                        }
                    }
                    assert forall|j: int| 0 <= j < self.notebooks@.len() implies #[trigger]
                        self.registry@.contains_key(self.notebooks@[j].0@)
                        && self.registry@[self.notebooks@[j].0@] == self.notebooks@[j].1 by {
                        let oj = if j < i { j } else { j + 1 };
                        assert(self.notebooks@[j] == old_notebooks[oj]);
                        assert(old(self).registry@.contains_key(old_notebooks[oj].0@));
                        assert(old_notebooks[oj].0@ != id);
                    }
                    assert forall|a: int, b: int| 0 <= a < b < self.notebooks@.len() implies
                        self.notebooks@[a].0@ != self.notebooks@[b].0@ by {
                        let oa = if a < i { a } else { a + 1 };
                        let ob = if b < i { b } else { b + 1 };
                        assert(self.notebooks@[a] == old_notebooks[oa]);
                        assert(self.notebooks@[b] == old_notebooks[ob]);
                    }
                }
                Some(entry.1)
            },
        }
    }
}

/// The payload a request carries: `{"code": ...}` when `code` is given,
/// `{}` otherwise.
pub open spec fn params_match(p: RequestParams, code: Option<Seq<char>>) -> bool {
    match code {
        Some(c) => p matches RequestParams::Execute(e) && e.code@ == c,
        None => p is Empty,
    }
}

/// The request of a plan has the given method and payload, and its line is
/// that request's encoding.
pub open spec fn plan_sends(p: CallPlan, method: Seq<char>, code: Option<Seq<char>>) -> bool {
    &&& p.request.method@ == method
    &&& params_match(p.request.params, code)
    &&& p.line@ == request_line(p.request)
    &&& is_single_line(p.line@)
}

/// What a call on notebook `id` in `language` decides, from the manager
/// before (`pre`) to the manager after (`post`):
/// - an unsupported language fails and changes nothing;
/// - a registered notebook is served by its set's kernel for that language;
/// - otherwise a construction is planned under fresh keys, and the call goes
///   to the new set's kernel for that language.
pub open spec fn dispatched(
    pre: KernelManager,
    post: KernelManager,
    id: Seq<char>,
    language: Seq<char>,
    method: Seq<char>,
    code: Option<Seq<char>>,
    r: Result<CallPlan, KernelError>,
) -> bool {
    &&& post@ == pre@
    &&& forall|l: Language| #[trigger] post.launch_spec(l) == pre.launch_spec(l)
    &&& match language_of(language) {
        None => (r matches Err(KernelError::UnsupportedLanguage(n)) && n@ == language)
            && post == pre,
        Some(l) => if pre@.contains_key(id) {
            (r matches Ok(p) && p.construct is None && p.key == pre@[id].key_of(l) && plan_sends(
                p,
                method,
                code,
            )) && post == pre
        } else if pre.key_floor() <= u64::MAX - 3 {
            r matches Ok(p) && p.construct matches Some(c) && c.notebook_id@ == id && c.wf()
                && c.first_key == pre.key_floor() && p.key == c.runtimes_spec().key_of(l)
                && plan_sends(p, method, code) && post.key_floor() == pre.key_floor() + 3
        } else {
            (r matches Err(KernelError::SpawnFailure(_))) && post == pre
        },
    }
}

impl KernelManager {
    fn dispatch(&mut self, notebook_id: &str, language: &str, method: &str, params: RequestParams) -> (r:
        Result<CallPlan, KernelError>)
        requires
            old(self).wf(),
        ensures
            final(self).wf(),
            dispatched(
                *old(self),
                *final(self),
                notebook_id@,
                language@,
                method@,
                match params {
                    RequestParams::Execute(e) => Some(e.code@),
                    RequestParams::Empty => None,
                },
                r,
            ),
    {
        let l = match parse_language(language) {
            Ok(l) => l,
            Err(e) => return Err(e),
        };
        let (construct, key) = match self.ensure_notebook(notebook_id) {
            Err(e) => return Err(e),
            Ok(EnsurePlan::Ready(rt)) => (None, rt.for_language(l)),
            Ok(EnsurePlan::Construct(c)) => {
                let key = c.runtimes().for_language(l);
                (Some(c), key)
            },
        };
        let request = IpcRequest { id: fresh_token(), method: method.to_owned(), params };
        let line = encode_request(&request);
        proof {
            assert forall|l: Language| #[trigger] self.launch_spec(l) == old(self).launch_spec(l) by {
                match l {
                    Language::Go => {},
                    Language::Ruby => {},
                    Language::Python => {},
                }
            }
        }
        Ok(CallPlan { construct, key, request, line })
    }

    /// Plans running `code` on the notebook's kernel for `language`.
    pub fn execute(&mut self, notebook_id: &str, language: &str, code: &str) -> (r: Result<
        CallPlan,
        KernelError,
    >)
        requires
            old(self).wf(),
        ensures
            final(self).wf(),
            dispatched(*old(self), *final(self), notebook_id@, language@, "execute"@, Some(code@), r),
    {
        let params = RequestParams::Execute(ExecuteParams { code: code.to_owned() });
        self.dispatch(notebook_id, language, "execute", params)
    }

    /// Plans asking the notebook's kernel for `language` to interrupt.
    pub fn interrupt(&mut self, notebook_id: &str, language: &str) -> (r: Result<CallPlan, KernelError>)
        requires
            old(self).wf(),
        ensures
            final(self).wf(),
            dispatched(*old(self), *final(self), notebook_id@, language@, "interrupt"@, None, r),
    {
        self.dispatch(notebook_id, language, "interrupt", RequestParams::Empty)
    }

    /// Plans asking the notebook's kernel for `language` to reset its state.
    /// This is a message to the kernel; the process itself is kept.
    pub fn restart(&mut self, notebook_id: &str, language: &str) -> (r: Result<CallPlan, KernelError>)
        requires
            old(self).wf(),
        ensures
            final(self).wf(),
            dispatched(*old(self), *final(self), notebook_id@, language@, "restart"@, None, r),
    {
        self.dispatch(notebook_id, language, "restart", RequestParams::Empty)
    }
}

/// A notebook whose set is registered never gets a second one: a call on it
/// plans no construction, reserves no key, leaves the manager as it was and
/// goes to a kernel of the registered set.
pub proof fn lemma_registered_notebook_spawns_nothing(
    pre: KernelManager,
    post: KernelManager,
    id: Seq<char>,
    language: Seq<char>,
    method: Seq<char>,
    code: Option<Seq<char>>,
    r: Result<CallPlan, KernelError>,
)
    requires
        dispatched(pre, post, id, language, method, code, r),
        pre@.contains_key(id),
    ensures
        post == pre,
        r matches Ok(p) ==> p.construct is None && exists|l: Language| p.key == pre@[id].key_of(l),
{
    if let Some(l) = language_of(language) {
        assert(r matches Ok(p) && p.key == pre@[id].key_of(l));
    }
}

/// A call in a language outside the configured set fails with
/// `UnsupportedLanguage` and changes nothing: no construction, no key.
pub proof fn lemma_unsupported_language_changes_nothing(
    pre: KernelManager,
    post: KernelManager,
    id: Seq<char>,
    language: Seq<char>,
    method: Seq<char>,
    code: Option<Seq<char>>,
    r: Result<CallPlan, KernelError>,
)
    requires
        dispatched(pre, post, id, language, method, code, r),
        language_of(language) is None,
    ensures
        post == pre,
        r matches Err(KernelError::UnsupportedLanguage(_)),
{
}

/// Every process key of a registered set lies below the manager's key floor.
pub proof fn lemma_registered_keys_below_floor(m: KernelManager, id: Seq<char>)
    requires
        m.wf(),
        m@.contains_key(id),
    ensures
        m@[id].keys_below(m.key_floor() as int),
{
}

/// A set built after a notebook was shut down shares no process key with
/// the set that was shut down: keys are reserved from the floor upwards,
/// and the floor never goes down.
pub proof fn lemma_rebuilt_set_is_fresh(m: KernelManager, id: Seq<char>, later_floor: u64, c: Construction)
    requires
        m.wf(),
        m@.contains_key(id),
        later_floor >= m.key_floor(),
        c.wf(),
        c.first_key >= later_floor,
    ensures
        forall|a: Language, b: Language| #[trigger]
            c.runtimes_spec().key_of(a) != #[trigger] m@[id].key_of(b),
{
    lemma_registered_keys_below_floor(m, id);
}

} // verus!
