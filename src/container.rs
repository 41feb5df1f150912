use vstd::prelude::*;

use crate::record::{color_of, color_spec, source_key, source_key_spec, Color};

verus! {

#[verifier::external_type_specification]
#[verifier::external_body]
pub struct ExRegexError(regex::Error);

/// Whether `regex::Regex::new` accepts a pattern; it depends on the pattern alone.
pub uninterp spec fn regex_valid(pattern: Seq<char>) -> bool;

/// Whether the compiled `pattern` finds a match anywhere in `text`.
pub uninterp spec fn regex_finds(pattern: Seq<char>, text: Seq<char>) -> bool;

/// Relies on `regex::Regex::new`, which fails exactly on a malformed pattern, and on
/// `regex::Regex::is_match`, which reports whether the pattern matches somewhere in
/// the text.
#[verifier::external_body]
fn regex_match(pattern: &str, text: &str) -> (r: Result<bool, regex::Error>)
    ensures
        r is Ok <==> regex_valid(pattern@),
        r matches Ok(b) ==> b == regex_finds(pattern@, text@),
{
    match regex::Regex::new(pattern) {
        Ok(re) => Ok(re.is_match(text)),
        Err(e) => Err(e),
    }
}

/// The container states a user can filter on.
#[derive(Clone, Copy, Debug, PartialEq, Eq, Structural)]
pub enum ContainerState {
    All,
    Running,
    Terminated,
    Waiting,
}

/// The lifecycle state that the cluster reports for a container.
#[derive(Clone, Copy, Debug, PartialEq, Eq, Structural)]
pub struct LifecycleState {
    pub running: bool,
    pub terminated: bool,
    pub waiting: bool,
}

/// Filter entry `accept` admits a container in state `state`.
pub open spec fn accepts(accept: ContainerState, state: LifecycleState) -> bool {
    match accept {
        ContainerState::All => true,
        ContainerState::Running => state.running,
        ContainerState::Terminated => state.terminated,
        ContainerState::Waiting => state.waiting,
    }
}

/// Some entry of `states` admits `state`.
pub open spec fn any_accepts(states: Seq<ContainerState>, state: LifecycleState) -> bool {
    exists|i: int| 0 <= i < states.len() && accepts(#[trigger] states[i], state)
}

/// A set of accepted container states.
pub struct ContainerStateMatcher(pub Vec<ContainerState>);

impl ContainerStateMatcher {
    pub fn new(states: Vec<ContainerState>) -> (r: Self)
        ensures
            r.0@ == states@,
    {
        ContainerStateMatcher(states)
    }

    /// Whether a container in `state` passes the filter.
    pub fn matches(&self, state: &LifecycleState) -> (r: bool)
        ensures
            r == any_accepts(self.0@, *state),
    {
        let mut i: usize = 0;
        while i < self.0.len()
            invariant
                i <= self.0@.len(),
                forall|k: int| 0 <= k < i ==> !accepts(#[trigger] self.0@[k], *state),
            decreases self.0@.len() - i,
        {
            let hit = match self.0[i] {
                ContainerState::All => true,
                ContainerState::Running => state.running,
                ContainerState::Terminated => state.terminated,
                ContainerState::Waiting => state.waiting,
            };
            if hit {
                return true;
            }
            i = i + 1;
        }
        false
    }
}

/// A container of a listed instance, with the state the cluster reports for it.
#[derive(Clone, Debug)]
pub struct ContainerEntry {
    pub name: String,
    pub state: Option<LifecycleState>,
}

/// A workload instance as listed by the cluster.
#[derive(Clone, Debug)]
pub struct PodEntry {
    pub name: Option<String>,
    pub containers: Vec<ContainerEntry>,
}

/// A (instance, container) pair, as plain text.
pub type PairView = (Seq<char>, Seq<char>);

/// The plain view of a list of (instance, container) pairs.
pub open spec fn pairs_view(v: Seq<(String, String)>) -> Seq<PairView> {
    v.map_values(|p: (String, String)| (p.0@, p.1@))
}

/// The instance name passes the name filter.
pub open spec fn name_passes(pattern: Option<Seq<char>>, name: Seq<char>) -> bool {
    match pattern {
        None => true,
        Some(p) => regex_finds(p, name),
    }
}

/// The containers of instance `name` among `cs` whose state the filter accepts.
pub open spec fn containers_selected(name: Seq<char>, cs: Seq<ContainerEntry>, states: Seq<ContainerState>) -> Seq<PairView>
    decreases cs.len(),
{
    if cs.len() == 0 {
        Seq::empty()
    } else {
        let prev = containers_selected(name, cs.drop_last(), states);
        let c = cs.last();
        match c.state {
            Some(st) => if any_accepts(states, st) {
                prev.push((name, c.name@))
            } else {
                prev
            },
            None => prev,
        }
    }
}

/// The pairs selected from one listed instance.
pub open spec fn pod_selected(pod: PodEntry, pattern: Option<Seq<char>>, states: Seq<ContainerState>) -> Seq<PairView> {
    match pod.name {
        Some(n) => if name_passes(pattern, n@) {
            containers_selected(n@, pod.containers@, states)
        } else {
            Seq::empty()
        },
        None => Seq::empty(),
    }
}

/// The pairs selected from a listing, in listing order.
pub open spec fn selected(pods: Seq<PodEntry>, pattern: Option<Seq<char>>, states: Seq<ContainerState>) -> Seq<PairView>
    decreases pods.len(),
{
    if pods.len() == 0 {
        Seq::empty()
    } else {
        selected(pods.drop_last(), pattern, states) + pod_selected(pods.last(), pattern, states)
    }
}

/// Why a streamer could not be made.
#[derive(Clone, Debug)]
pub enum StreamerError {
    /// The instance name filter is not a valid regular expression.
    InvalidPattern(String),
}

/// Decides which containers to tail, and how each source is shown.
pub struct ContainerLogStreamer {
    pod_query: Option<String>,
    container_state_matcher: ContainerStateMatcher,
}

/// What one stream worker needs to know of its source.
#[derive(Clone, Debug)]
pub struct WorkerPlan {
    pub instance: String,
    pub container: String,
    pub key: String,
    pub color: Color,
}

impl ContainerLogStreamer {
    /// The name filter, as text.
    pub closed spec fn pattern(&self) -> Option<Seq<char>> {
        match self.pod_query {
            Some(p) => Some(p@),
            None => None,
        }
    }

    /// The accepted container states.
    pub closed spec fn states(&self) -> Seq<ContainerState> {
        self.container_state_matcher.0@
    }

    /// The name filter, when there is one, is a valid pattern.
    pub closed spec fn wf(&self) -> bool {
        self.pod_query matches Some(p) ==> regex_valid(p@)
    }

    /// Makes a streamer; fails when the name filter is malformed.
    pub fn try_new(pod_query: Option<String>, container_state_matcher: ContainerStateMatcher) -> (r: Result<Self, StreamerError>)
        ensures
            r is Ok <==> (pod_query matches Some(p) ==> regex_valid(p@)),
            r matches Ok(s) ==> s.wf() && s.states() == container_state_matcher.0@
                && s.pattern() == (match pod_query { Some(p) => Some(p@), None => None::<Seq<char>> }),
            r matches Err(StreamerError::InvalidPattern(p)) ==> pod_query matches Some(q) && p@ == q@,
    {
        match pod_query {
            Some(p) => {
                // Compiling the pattern once here reports a malformed one before any listing.
                match regex_match(p.as_str(), "") {
                    Ok(_) => Ok(ContainerLogStreamer { pod_query: Some(p), container_state_matcher }),
                    Err(_) => Err(StreamerError::InvalidPattern(p)),
                }
            },
            None => Ok(ContainerLogStreamer { pod_query: None, container_state_matcher }),
        }
    }

    /// Whether an instance with this name passes the name filter.
    fn name_matches(&self, name: &String) -> (r: bool)
        requires
            self.wf(),
        ensures
            r == name_passes(self.pattern(), name@),
    {
        match &self.pod_query {
            Some(p) => match regex_match(p.as_str(), name.as_str()) {
                Ok(b) => b,
                Err(_) => false,
            },
            None => true,
        }
    }

    /// The (instance, container) pairs to tail in a listing: instances whose name
    /// passes the filter, and of those the containers whose state it accepts.
    pub fn get_pod_and_containers(&self, pods: &Vec<PodEntry>) -> (r: Vec<(String, String)>)
        requires
            self.wf(),
        ensures
            pairs_view(r@) == selected(pods@, self.pattern(), self.states()),
    {
        let mut r: Vec<(String, String)> = Vec::new();
        let mut i: usize = 0;
        while i < pods.len()
            invariant
                self.wf(),
                i <= pods@.len(),
                pairs_view(r@) == selected(pods@.take(i as int), self.pattern(), self.states()),
            decreases pods@.len() - i,
        {
            assert(pods@.take(i + 1).drop_last() =~= pods@.take(i as int));
            let ghost base = r@;
            let pod = &pods[i];
            match &pod.name {
                Some(name) => {
                    if self.name_matches(name) {
                        let mut j: usize = 0;
                        while j < pod.containers.len()
                            invariant
                                i < pods@.len(),
                                pod == pods@[i as int],
                                j <= pod.containers@.len(),
                                r@ == base + r@.subrange(base.len() as int, r@.len() as int),
                                pairs_view(r@) == pairs_view(base) + containers_selected(
                                    name@,
                                    pod.containers@.take(j as int),
                                    self.states(),
                                ),
                            decreases pod.containers@.len() - j,
                        {
                            assert(pod.containers@.take(j + 1).drop_last() =~= pod.containers@.take(j as int));
                            let c = &pod.containers[j];
                            match &c.state {
                                Some(st) => {
                                    if self.container_state_matcher.matches(st) {
                                        let ghost before = r@;
                                        r.push((name.clone(), c.name.clone()));
                                        assert(pairs_view(r@) =~= pairs_view(before).push((name@, c.name@)));
                                        assert(r@ =~= base + r@.subrange(base.len() as int, r@.len() as int));
                                    }
                                },
                                None => {},
                            }
                            j = j + 1;
                        }
                        assert(pod.containers@.take(pod.containers@.len() as int) =~= pod.containers@);
                    } else {
                        assert(pairs_view(r@) =~= pairs_view(base) + Seq::<PairView>::empty());
                    }
                },
                None => {
                    assert(pairs_view(r@) =~= pairs_view(base) + Seq::<PairView>::empty());
                },
            }
            i = i + 1;
        }
        assert(pods@.take(pods@.len() as int) =~= pods@);
        r
    }

    /// One plan per selected pair, in order: the worker's source, its key and
    /// its color.
    pub fn plan_workers(&self, pairs: &Vec<(String, String)>) -> (r: Vec<WorkerPlan>)
        ensures
            r@.len() == pairs@.len(),
            forall|k: int| 0 <= k < r@.len() ==> {
                let w = #[trigger] r@[k];
                &&& w.instance@ == pairs@[k].0@
                &&& w.container@ == pairs@[k].1@
                &&& w.key@ == source_key_spec(pairs@[k].0@, pairs@[k].1@)
                &&& w.color == color_spec(w.key@)
            },
    {
        let mut r: Vec<WorkerPlan> = Vec::new();
        let mut i: usize = 0;
        while i < pairs.len()
            invariant
                i <= pairs@.len(),
                r@.len() == i,
                forall|k: int| 0 <= k < r@.len() ==> {
                    let w = #[trigger] r@[k];
                    &&& w.instance@ == pairs@[k].0@
                    &&& w.container@ == pairs@[k].1@
                    &&& w.key@ == source_key_spec(pairs@[k].0@, pairs@[k].1@)
                    &&& w.color == color_spec(w.key@)
                },
            decreases pairs@.len() - i,
        {
            let (instance, container) = &pairs[i];
            let key = source_key(instance, container);
            let color = color_of(&key);
            r.push(WorkerPlan { instance: instance.clone(), container: container.clone(), key, color });
            i = i + 1;
        }
        r
    }
}

} // verus!
