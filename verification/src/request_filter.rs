//! The request-plugin pipeline: an ordered chain of external transformations,
//! each taking the request that the one before it returned.
use vstd::prelude::*;
use crate::message::Request;
use crate::settings::RequestPlugins;

verus! {

/// The plugin at `index` of a route's list could not be loaded or run.
#[derive(Debug)]
pub struct PluginFailure {
    pub index: usize,
}

/// What the stage for `plugin`, standing at `index`, makes of `prev`: a
/// failure passes through, a request goes to the invoker, whose refusal
/// becomes a failure at `index`.
pub open spec fn stage_result<F: Fn(&RequestPlugins, Request) -> Option<Request>>(
    invoke: F,
    plugin: RequestPlugins,
    index: int,
    prev: Result<Request, PluginFailure>,
    out: Result<Request, PluginFailure>,
) -> bool {
    match prev {
        Err(_) => out == prev,
        Ok(mid) => match out {
            Ok(next) => invoke.ensures((&plugin, mid), Some(next)),
            Err(e) => e.index == index && invoke.ensures((&plugin, mid), None),
        },
    }
}

/// `trace` records a run of `plugins` on `start`: it begins with `start`, and
/// each further entry is what the stage of the plugin at that place made of
/// the entry before it.
pub open spec fn pipeline_trace<F: Fn(&RequestPlugins, Request) -> Option<Request>>(
    invoke: F,
    plugins: Seq<RequestPlugins>,
    start: Request,
    trace: Seq<Result<Request, PluginFailure>>,
) -> bool {
    &&& trace.len() == plugins.len() + 1
    &&& trace[0] == Ok::<Request, PluginFailure>(start)
    &&& forall|k: int|
        0 <= k < plugins.len() ==> stage_result(
            invoke,
            #[trigger] plugins[k],
            k,
            trace[k],
            trace[k + 1],
        )
}

/// `out` is a possible result of running `plugins` in order on `start`.
pub open spec fn pipeline_result<F: Fn(&RequestPlugins, Request) -> Option<Request>>(
    invoke: F,
    plugins: Seq<RequestPlugins>,
    start: Request,
    out: Result<Request, PluginFailure>,
) -> bool {
    exists|trace: Seq<Result<Request, PluginFailure>>|
        #![trigger pipeline_trace(invoke, plugins, start, trace)]
        pipeline_trace(invoke, plugins, start, trace) && trace.last() == out
}

/// With no plugins the pipeline is the identity on the request.
pub proof fn lemma_empty_pipeline_is_identity<F: Fn(&RequestPlugins, Request) -> Option<Request>>(
    invoke: F,
    start: Request,
    out: Result<Request, PluginFailure>,
)
    ensures
        pipeline_result(invoke, Seq::<RequestPlugins>::empty(), start, out) <==> out == Ok::<
            Request,
            PluginFailure,
        >(start),
{
    let none = Seq::<RequestPlugins>::empty();
    if out == Ok::<Request, PluginFailure>(start) {
        assert(pipeline_trace(invoke, none, start, seq![out]));
    }
}

/// With two plugins the second is handed what the first returned for the
/// incoming request, never the other way round.
pub proof fn lemma_pipeline_order<F: Fn(&RequestPlugins, Request) -> Option<Request>>(
    invoke: F,
    first: RequestPlugins,
    second: RequestPlugins,
    start: Request,
    out: Request,
)
    requires
        pipeline_result(invoke, seq![first, second], start, Ok(out)),
    ensures
        exists|mid: Request|
            #![trigger invoke.ensures((&first, start), Some(mid))]
            invoke.ensures((&first, start), Some(mid)) && invoke.ensures(
                (&second, mid),
                Some(out),
            ),
{
    let both = seq![first, second];
    let trace = choose|trace: Seq<Result<Request, PluginFailure>>|
        #![trigger pipeline_trace(invoke, both, start, trace)]
        pipeline_trace(invoke, both, start, trace) && trace.last() == Ok::<Request, PluginFailure>(
            out,
        );
    assert(stage_result(invoke, both[0], 0, trace[0], trace[1]));
    assert(stage_result(invoke, both[1], 1, trace[1], trace[2]));
    let mid = trace[1]->Ok_0;
    assert(invoke.ensures((&first, start), Some(mid)));
}

/// Runs the plugins of a route in their declared order. `invoke` loads the
/// unit that a reference names and hands it the request; it answers `None`
/// where the unit cannot be loaded or run. After the first failure no further
/// unit is invoked, and the failure names the place of the one that failed.
pub fn filter_request<F: Fn(&RequestPlugins, Request) -> Option<Request>>(
    req: Request,
    req_plugins: &Vec<RequestPlugins>,
    invoke: &F,
) -> (r: Result<Request, PluginFailure>)
    requires
        forall|p: &RequestPlugins, q: Request| invoke.requires((p, q)),
    ensures
        pipeline_result(*invoke, req_plugins@, req, r),
        req_plugins@.len() == 0 ==> r == Ok::<Request, PluginFailure>(req),
{
    let ghost start = req;
    let mut cur: Result<Request, PluginFailure> = Ok(req);
    let ghost mut trace: Seq<Result<Request, PluginFailure>> = seq![cur];
    let mut i: usize = 0;
    while i < req_plugins.len()
        invariant
            i <= req_plugins@.len(),
            forall|p: &RequestPlugins, q: Request| invoke.requires((p, q)),
            pipeline_trace(*invoke, req_plugins@.take(i as int), start, trace),
            trace.last() == cur,
        decreases req_plugins@.len() - i,
    {
        let ghost prev = cur;
        let ghost before = trace;
        cur = match cur {
            Ok(mid) => match invoke(&req_plugins[i], mid) {
                Some(next) => Ok(next),
                None => Err(PluginFailure { index: i }),
            },
            Err(e) => Err(e),
        };
        proof {
            trace = before.push(cur);
            let upto = req_plugins@.take(i + 1);
            assert(stage_result(*invoke, req_plugins@[i as int], i as int, prev, cur));
            assert forall|k: int| 0 <= k < upto.len() implies stage_result(
                *invoke,
                #[trigger] upto[k],
                k,
                trace[k],
                trace[k + 1],
            ) by {
                if k < i {
                    assert(req_plugins@.take(i as int)[k] == upto[k]);
                }
            }
        }
        i += 1;
    }
    assert(req_plugins@.take(i as int) =~= req_plugins@);
    cur
}

} // verus!
