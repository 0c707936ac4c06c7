//! The laws of the bridge and its routing, stated and proved over the
//! models that the executable functions are pinned to.

use vstd::prelude::*;
use vstd::seq_lib::*;
use crate::protocol::{MessageView, ResponseView, response_matches, spec_is_error};
use crate::service::{
    ServiceView, all_stopped, handler_index, lemma_svc_handle_matches, lemma_svc_handle_phase,
    manager_handle, manager_wf, no_service_text, route_model, stop_all_model, svc_handle,
    svc_phase, svc_recognizes, svc_stop, svc_wf,
};
use crate::host::host_run_model;
use crate::bridge::{BridgeState, spec_stop_transition};

verus! {

/// Routing returns the answer of the first capability that recognizes
/// the request kind — success or failure, never masked — and passes over
/// the capabilities before it untouched. When no capability recognizes
/// the kind, the registry is untouched and the generic no-capability
/// error comes back.
pub proof fn lemma_route_first_recognizing(ss: Seq<ServiceView>, m: MessageView)
    ensures
        match handler_index(ss, m) {
            Some(i) => {
                &&& 0 <= i < ss.len()
                &&& svc_recognizes(ss[i], m)
                &&& forall|j: int| 0 <= j < i ==> !svc_recognizes(#[trigger] ss[j], m)
                &&& route_model(ss, m).1 == svc_handle(ss[i], m).1
                &&& route_model(ss, m).0 == ss.update(i, svc_handle(ss[i], m).0)
            },
            None => {
                &&& forall|j: int| 0 <= j < ss.len() ==> !svc_recognizes(#[trigger] ss[j], m)
                &&& route_model(ss, m) == (ss, ResponseView::Error(no_service_text()))
            },
        },
{
    let recs = ss.map_values(|s: ServiceView| svc_recognizes(s, m));
    recs.index_of_first_ensures(true);
    match handler_index(ss, m) {
        Some(i) => {
            assert forall|j: int| 0 <= j < i implies !svc_recognizes(#[trigger] ss[j], m) by {
                assert(recs[j] != true);
            }
        },
        None => {
            assert forall|j: int|
                0 <= j < ss.len() implies !svc_recognizes(#[trigger] ss[j], m) by {
                if svc_recognizes(ss[j], m) {
                    assert(recs[j] == true);
                    assert(recs.contains(true));
                }
            }
        },
    }
}

/// The routing tie-break between two capabilities registered in order `a`
/// then `b`: when `a` recognizes the request its answer is returned —
/// even an error, which is never silently masked by `b` — and `b` is
/// untouched. Only when `a` does not recognize the request is `b`'s
/// answer returned; when neither recognizes it the generic no-capability
/// error comes back with both untouched.
pub proof fn lemma_route_tie_break(a: ServiceView, b: ServiceView, m: MessageView)
    ensures
        svc_recognizes(a, m) ==> route_model(seq![a, b], m) == (
            seq![svc_handle(a, m).0, b],
            svc_handle(a, m).1,
        ),
        !svc_recognizes(a, m) && svc_recognizes(b, m) ==> route_model(seq![a, b], m) == (
            seq![a, svc_handle(b, m).0],
            svc_handle(b, m).1,
        ),
        !svc_recognizes(a, m) && !svc_recognizes(b, m) ==> route_model(seq![a, b], m) == (
            seq![a, b],
            ResponseView::Error(no_service_text()),
        ),
        !svc_recognizes(a, m) ==> spec_is_error(svc_handle(a, m).1) && svc_handle(a, m).0 == a,
{
    crate::service::lemma_svc_decline_unchanged(a, m);
    let ss = seq![a, b];
    let recs = ss.map_values(|s: ServiceView| svc_recognizes(s, m));
    recs.index_of_first_ensures(true);
    assert(recs.len() == 2);
    assert(recs[0] == svc_recognizes(a, m));
    assert(recs[1] == svc_recognizes(b, m));
    if svc_recognizes(a, m) {
        assert(recs.contains(true));
        assert(handler_index(ss, m) == Some(0int));
        assert(ss.update(0int, svc_handle(a, m).0) =~= seq![svc_handle(a, m).0, b]);
    } else if svc_recognizes(b, m) {
        assert(recs.contains(true));
        assert(handler_index(ss, m) == Some(1int));
        assert(ss.update(1int, svc_handle(b, m).0) =~= seq![a, svc_handle(b, m).0]);
    } else {
        if recs.contains(true) {
            let k = choose|k: int| 0 <= k < recs.len() && recs[k] == true;
            assert(k == 0 || k == 1);
        }
        assert(handler_index(ss, m) is None);
    }
}

/// The manager's answer to a request either corresponds to the request's
/// variant or is an error response — never a response of a foreign
/// variant, and never more than one.
pub proof fn lemma_manager_handle_matches(ss: Seq<ServiceView>, m: MessageView)
    ensures
        response_matches(m, manager_handle(ss, m).1) || spec_is_error(manager_handle(ss, m).1),
{
    match m {
        MessageView::Ping => {},
        MessageView::Stop => {},
        _ => {
            lemma_route_first_recognizing(ss, m);
            match handler_index(ss, m) {
                Some(i) => {
                    lemma_svc_handle_matches(ss[i], m);
                },
                None => {},
            }
        },
    }
}

/// Handling a message keeps every capability well-formed.
pub proof fn lemma_manager_handle_wf(ss: Seq<ServiceView>, m: MessageView)
    requires
        manager_wf(ss),
    ensures
        manager_wf(manager_handle(ss, m).0),
{
    match m {
        MessageView::Ping => {},
        MessageView::Stop => {},
        _ => {
            lemma_route_first_recognizing(ss, m);
            match handler_index(ss, m) {
                Some(i) => {
                    lemma_svc_handle_phase(ss[i], m);
                    let ss2 = manager_handle(ss, m).0;
                    assert forall|j: int| 0 <= j < ss2.len() implies svc_wf(
                        #[trigger] ss2[j],
                    ) by {
                        if j != i {
                            assert(ss2[j] == ss[j]);
                        }
                    }
                },
                None => {},
            }
        },
    }
}

/// Stopping all capabilities stops every one of them.
pub proof fn lemma_stop_all_stops(ss: Seq<ServiceView>)
    ensures
        all_stopped(stop_all_model(ss)),
{
    let ss2 = stop_all_model(ss);
    assert forall|i: int|
        0 <= i < ss2.len() implies svc_phase(#[trigger] ss2[i])
        == crate::service::ServicePhase::Stopped by {
        assert(ss2[i] == svc_stop(ss[i]).0);
    }
}

/// For a request sequence with no shutdown request, a host session yields
/// exactly one response per request, in order, and each response either
/// corresponds to its request's variant or is an error response.
pub proof fn lemma_one_response_per_request(ss: Seq<ServiceView>, msgs: Seq<MessageView>)
    requires
        manager_wf(ss),
        forall|j: int| 0 <= j < msgs.len() ==> !((#[trigger] msgs[j]) is Stop),
    ensures
        host_run_model(ss, msgs).1.len() == msgs.len(),
        forall|j: int|
            0 <= j < msgs.len() ==> response_matches(
                msgs[j],
                #[trigger] host_run_model(ss, msgs).1[j],
            ) || spec_is_error(host_run_model(ss, msgs).1[j]),
    decreases msgs.len(),
{
    if msgs.len() == 0 {
    } else {
        let m0 = msgs[0];
        let (ss1, r) = manager_handle(ss, m0);
        lemma_manager_handle_matches(ss, m0);
        lemma_manager_handle_wf(ss, m0);
        let rest_msgs = msgs.skip(1);
        lemma_one_response_per_request(ss1, rest_msgs);
        let rest = host_run_model(ss1, rest_msgs).1;
        assert(host_run_model(ss, msgs).1 == seq![r] + rest);
        assert forall|j: int|
            0 <= j < msgs.len() implies response_matches(
            msgs[j],
            #[trigger] host_run_model(ss, msgs).1[j],
        ) || spec_is_error(host_run_model(ss, msgs).1[j]) by {
            if j == 0 {
                assert((seq![r] + rest)[0] == r);
            } else {
                assert((seq![r] + rest)[j] == rest[j - 1]);
                assert(rest_msgs[j - 1] == msgs[j]);
            }
        }
    }
}

/// Whatever ends a host session — a shutdown request or the close of the
/// inbound channel — every registered capability has been stopped by the
/// time the host exits, even when no capability is registered at all.
pub proof fn lemma_host_session_stops_all(ss: Seq<ServiceView>, msgs: Seq<MessageView>)
    ensures
        all_stopped(host_run_model(ss, msgs).0),
    decreases msgs.len(),
{
    if msgs.len() == 0 {
        lemma_stop_all_stops(ss);
    } else if msgs[0] is Stop {
        lemma_stop_all_stops(ss);
    } else {
        let (ss1, r) = manager_handle(ss, msgs[0]);
        lemma_host_session_stops_all(ss1, msgs.skip(1));
    }
}

/// A shutdown request ends the session at once: the requests before the
/// first shutdown are each answered, the shutdown itself is acknowledged
/// as the last response, and nothing after it is processed.
pub proof fn lemma_shutdown_terminates(ss: Seq<ServiceView>, msgs: Seq<MessageView>, k: int)
    requires
        0 <= k < msgs.len(),
        msgs[k] is Stop,
        forall|j: int| 0 <= j < k ==> !((#[trigger] msgs[j]) is Stop),
    ensures
        host_run_model(ss, msgs).1.len() == k + 1,
        host_run_model(ss, msgs).1[k] == ResponseView::Stopped,
    decreases k,
{
    if k == 0 {
    } else {
        let (ss1, r) = manager_handle(ss, msgs[0]);
        let rest_msgs = msgs.skip(1);
        assert(rest_msgs[k - 1] == msgs[k]);
        lemma_shutdown_terminates(ss1, rest_msgs, k - 1);
        let rest = host_run_model(ss1, rest_msgs).1;
        assert(host_run_model(ss, msgs).1 == seq![r] + rest);
        assert((seq![r] + rest)[k] == rest[k - 1]);
    }
}

/// The liveness request is always answered by the manager itself with the
/// fixed acknowledgement, whatever capabilities are registered and
/// whatever state they are in; no capability is consulted.
pub proof fn lemma_liveness_fixed_ack(ss: Seq<ServiceView>)
    ensures
        manager_handle(ss, MessageView::Ping) == (ss, ResponseView::Pong),
{
}

/// The bridge's stop is idempotent: after one stop — from any state — a
/// second stop finds no running host thread and performs no second join.
pub proof fn lemma_stop_idempotent(s: BridgeState)
    ensures
        spec_stop_transition(spec_stop_transition(s).0).1 == false,
{
}

} // verus!
