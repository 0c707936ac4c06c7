//! The host loop's decision logic.
//!
//! The runtime host is a dedicated thread that waits for inbound requests,
//! routes them through the service manager, and sends each response back
//! before waiting again. Everything the loop decides is here, as a step
//! function from manager state and event to action; the embedding runs the
//! actual thread and channels and calls `host_step` on each event.
//!
//! The loop leaves in exactly two ways: a shutdown request (the host stops
//! every capability, acknowledges, and exits) or a closed inbound channel
//! (the host stops every capability and exits silently, since no receiver
//! is left).

use vstd::prelude::*;
use crate::protocol::{MessageView, ResponseView, ServiceMessage, ServiceResponse};
use crate::service::{ServiceManager, ServiceView, manager_handle, manager_wf, stop_all_model};

verus! {

/// What the host observed on its inbound channel.
#[derive(Debug)]
pub enum HostEvent {
    Message(ServiceMessage),
    Disconnected,
}

pub enum HostEventView {
    Message(MessageView),
    Disconnected,
}

impl View for HostEvent {
    type V = HostEventView;

    open spec fn view(&self) -> HostEventView {
        match self {
            HostEvent::Message(m) => HostEventView::Message(m@),
            HostEvent::Disconnected => HostEventView::Disconnected,
        }
    }
}

/// What the loop does next: send a response and keep going, send one and
/// exit, or exit without a response.
#[derive(Debug)]
pub enum HostAction {
    Reply(ServiceResponse),
    ReplyAndExit(ServiceResponse),
    Exit,
}

pub enum HostActionView {
    Reply(ResponseView),
    ReplyAndExit(ResponseView),
    Exit,
}

impl View for HostAction {
    type V = HostActionView;

    open spec fn view(&self) -> HostActionView {
        match self {
            HostAction::Reply(r) => HostActionView::Reply(r@),
            HostAction::ReplyAndExit(r) => HostActionView::ReplyAndExit(r@),
            HostAction::Exit => HostActionView::Exit,
        }
    }
}

/// One turn of the host loop. A shutdown request stops every capability
/// and acknowledges before exiting; a closed channel stops every
/// capability and exits silently; everything else is routed and answered.
pub open spec fn host_step_model(ss: Seq<ServiceView>, e: HostEventView) -> (
    Seq<ServiceView>,
    HostActionView,
) {
    match e {
        HostEventView::Message(m) => {
            if m is Stop {
                (stop_all_model(ss), HostActionView::ReplyAndExit(ResponseView::Stopped))
            } else {
                let (ss2, r) = manager_handle(ss, m);
                (ss2, HostActionView::Reply(r))
            }
        },
        HostEventView::Disconnected => (stop_all_model(ss), HostActionView::Exit),
    }
}

/// One turn of the host loop over the real manager.
pub fn host_step(manager: &mut ServiceManager, event: HostEvent) -> (action: HostAction)
    requires
        old(manager).wf(),
    ensures
        final(manager)@ == host_step_model(old(manager)@, event@).0,
        action@ == host_step_model(old(manager)@, event@).1,
        final(manager).wf(),
{
    match event {
        HostEvent::Message(msg) => {
            if matches!(msg, ServiceMessage::Stop) {
                let _ = manager.stop_all();
                HostAction::ReplyAndExit(ServiceResponse::Stopped)
            } else {
                let response = manager.handle_message(msg);
                HostAction::Reply(response)
            }
        },
        HostEvent::Disconnected => {
            let _ = manager.stop_all();
            HostAction::Exit
        },
    }
}

/// A whole host session over a finite inbound sequence: requests are
/// consumed in order until the first shutdown request (which is
/// acknowledged) or until the channel is exhausted (a disconnect, which is
/// not). Either way every capability is stopped before the host exits.
pub open spec fn host_run_model(ss: Seq<ServiceView>, msgs: Seq<MessageView>) -> (
    Seq<ServiceView>,
    Seq<ResponseView>,
)
    decreases msgs.len(),
{
    if msgs.len() == 0 {
        (stop_all_model(ss), Seq::empty())
    } else if msgs[0] is Stop {
        (stop_all_model(ss), seq![ResponseView::Stopped])
    } else {
        let (ss1, r) = manager_handle(ss, msgs[0]);
        let (ss2, rest) = host_run_model(ss1, msgs.skip(1));
        (ss2, seq![r] + rest)
    }
}

/// Runs a host session to completion: the loop the runtime thread would
/// run, with the inbound channel's content given up front and the close of
/// the channel at its end.
pub fn host_run(manager: &mut ServiceManager, msgs: Vec<ServiceMessage>) -> (responses: Vec<
    ServiceResponse,
>)
    requires
        old(manager).wf(),
    ensures
        final(manager)@ == host_run_model(old(manager)@, msgs.deep_view()).0,
        responses.deep_view() == host_run_model(old(manager)@, msgs.deep_view()).1,
        final(manager).wf(),
{
    let ghost msgs_v = msgs.deep_view();
    let mut responses: Vec<ServiceResponse> = Vec::new();
    let mut i: usize = 0;
    let mut stopped = false;
    proof {
        assert(msgs_v.skip(0) =~= msgs_v);
        assert(responses.deep_view() =~= Seq::<ResponseView>::empty());
        assert(Seq::<ResponseView>::empty() + host_run_model(manager@, msgs_v).1 =~= host_run_model(
            manager@,
            msgs_v,
        ).1);
    }
    while i < msgs.len() && !stopped
        invariant
            i <= msgs_v.len(),
            msgs_v == msgs.deep_view(),
            msgs_v.len() == msgs@.len(),
            manager.wf(),
            !stopped ==> host_run_model(old(manager)@, msgs_v) == (
                host_run_model(manager@, msgs_v.skip(i as int)).0,
                responses.deep_view() + host_run_model(manager@, msgs_v.skip(i as int)).1,
            ),
            stopped ==> (manager@, responses.deep_view()) == host_run_model(old(manager)@, msgs_v),
        decreases msgs_v.len() - i, if stopped { 0int } else { 1int },
    {
        let ghost pre = manager@;
        let ghost resp0 = responses.deep_view();
        let ghost suffix = msgs_v.skip(i as int);
        proof {
            assert(suffix[0] == msgs_v[i as int]);
            assert(msgs_v[i as int] == msgs@[i as int]@);
            assert(suffix.skip(1) =~= msgs_v.skip(i + 1));
        }
        let msg = msgs[i].clone();
        if matches!(msg, ServiceMessage::Stop) {
            let _ = manager.stop_all();
            responses.push(ServiceResponse::Stopped);
            stopped = true;
            proof {
                assert(responses.deep_view() =~= resp0.push(ResponseView::Stopped));
                assert(resp0.push(ResponseView::Stopped) =~= resp0 + seq![
                    ResponseView::Stopped,
                ]);
                assert(host_run_model(pre, suffix) == (
                    stop_all_model(pre),
                    seq![ResponseView::Stopped],
                ));
            }
        } else {
            let response = manager.handle_message(msg);
            let ghost r_v = response@;
            responses.push(response);
            proof {
                assert(responses.deep_view() =~= resp0.push(r_v));
                assert(host_run_model(pre, suffix) == (
                    host_run_model(manager@, suffix.skip(1)).0,
                    seq![r_v] + host_run_model(manager@, suffix.skip(1)).1,
                ));
                assert(resp0.push(r_v) + host_run_model(manager@, msgs_v.skip(i + 1)).1 =~= resp0
                    + (seq![r_v] + host_run_model(manager@, msgs_v.skip(i + 1)).1));
            }
            i = i + 1;
        }
    }
    if !stopped {
        proof {
            assert(msgs_v.skip(i as int) =~= Seq::<MessageView>::empty());
        }
        let _ = manager.stop_all();
        proof {
            assert(responses.deep_view() + Seq::<ResponseView>::empty() =~= (
            responses.deep_view()));
        }
    }
    responses
}

} // verus!
