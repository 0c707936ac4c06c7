//! The embedded-interpreter vocabulary: the mapping between the plain
//! strings an embedding speaks and the typed protocol.
//!
//! The embedding itself — the process-wide singleton bridge and its
//! one-time initialization — lives outside the library; it parses each
//! incoming command with `message_from_name` and renders each response
//! with `response_name`.

use vstd::prelude::*;
use vstd::string::StringExecFns;
use crate::protocol::{ResponseView, ServiceMessage, ServiceResponse};

verus! {

/// The request named by an embedding's command string: only the liveness
/// and shutdown probes have names; anything else is unknown.
pub fn message_from_name(name: &str) -> (r: Option<ServiceMessage>)
    ensures
        match r {
            Some(m) => (name@ == "ping"@ && m@ is Ping) || (name@ == "stop"@ && m@ is Stop),
            None => name@ != "ping"@ && name@ != "stop"@,
        },
{
    let name_owned: String = name.to_owned();
    if name_owned == "ping".to_owned() {
        Some(ServiceMessage::Ping)
    } else if name_owned == "stop".to_owned() {
        Some(ServiceMessage::Stop)
    } else {
        None
    }
}

/// The string an embedding sees for each response variant; an error
/// carries its message, a data payload its subject's name.
pub open spec fn spec_response_name(r: ResponseView) -> Seq<char> {
    match r {
        ResponseView::Pong => "pong"@,
        ResponseView::Stopped => "stopped"@,
        ResponseView::Created => "created"@,
        ResponseView::ObjectData(d) => "object: "@ + d.name,
        ResponseView::MaterialData(d) => "material: "@ + d.name,
        ResponseView::ObjectList(_) => "objects"@,
        ResponseView::MaterialList(_) => "materials"@,
        ResponseView::MeshList(_) => "meshes"@,
        ResponseView::SceneCleared => "scene_cleared"@,
        ResponseView::Error(msg) => "error: "@ + msg,
    }
}

/// Renders a response as the string the embedding hands on.
pub fn response_name(response: &ServiceResponse) -> (r: String)
    ensures
        r@ == spec_response_name(response@),
{
    match response {
        ServiceResponse::Pong => "pong".to_owned(),
        ServiceResponse::Stopped => "stopped".to_owned(),
        ServiceResponse::Created => "created".to_owned(),
        ServiceResponse::ObjectData(d) => {
            let mut s = "object: ".to_owned();
            s.append(d.name.as_str());
            s
        },
        ServiceResponse::MaterialData(d) => {
            let mut s = "material: ".to_owned();
            s.append(d.name.as_str());
            s
        },
        ServiceResponse::ObjectList(_) => "objects".to_owned(),
        ServiceResponse::MaterialList(_) => "materials".to_owned(),
        ServiceResponse::MeshList(_) => "meshes".to_owned(),
        ServiceResponse::SceneCleared => "scene_cleared".to_owned(),
        ServiceResponse::Error(msg) => {
            let mut s = "error: ".to_owned();
            s.append(msg.as_str());
            s
        },
    }
}

} // verus!
