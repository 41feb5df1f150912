use vstd::prelude::*;

use crate::container::ContainerState;

verus! {

/// The settings a run starts from.
#[derive(Clone, Debug)]
pub struct Args {
    /// Cluster context to use.
    pub context: Option<String>,
    /// Namespace to list instances in.
    pub namespace: Option<String>,
    /// Regular expression that instance names must match.
    pub pod_query: Option<String>,
    /// Container states to tail.
    pub container_status: Vec<ContainerState>,
    /// Per-read timeout, in milliseconds.
    pub log_retrieval_timeout_millis: u64,
    /// Interval between two drawn lines, in milliseconds.
    pub render_interval_millis: u64,
    /// Capacity of the history buffer.
    pub queue_capacity: usize,
}

/// The context to use: the one given, else the configuration's current one.
pub fn detect_context(args: &Args, current_context: Option<String>) -> (r: Option<String>)
    ensures
        args.context matches Some(c) ==> r matches Some(x) && x@ == c@,
        args.context is None ==> r == current_context,
{
    match &args.context {
        Some(c) => Some(c.clone()),
        None => current_context,
    }
}

/// The namespace to use: the one given, else the context's default one, else
/// `default`.
pub fn detect_namespace(args: &Args, context_namespace: Option<String>) -> (r: String)
    ensures
        args.namespace matches Some(n) ==> r@ == n@,
        args.namespace is None && context_namespace is Some ==> r@ == context_namespace->0@,
        args.namespace is None && context_namespace is None ==> r@ == "default"@,
{
    match &args.namespace {
        Some(n) => n.clone(),
        None => match context_namespace {
            Some(n) => n,
            None => "default".to_owned(),
        },
    }
}

} // verus!
