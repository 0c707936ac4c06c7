//! Capabilities (services) and the service manager that owns them.
//!
//! A capability exposes start / handle / stop and is owned exclusively by
//! the manager from registration until shutdown. The manager starts and
//! stops capabilities in registration order and routes every scene request
//! to the first capability that recognizes its kind, returning that
//! capability's answer — success or failure — as is.

use vstd::prelude::*;
use vstd::seq_lib::*;
use vstd::string::StringExecFns;
use crate::protocol::{
    MessageView, ResponseView, ServiceMessage, ServiceResponse, spec_api_error_text, spec_is_error,
};
use crate::scene::{
    MockBlenderApi, SceneView, scene_wf, spec_assign_material, spec_clear_scene, spec_create_cube,
    spec_create_material, spec_create_sphere, spec_empty_scene, spec_get_material, spec_get_object,
    spec_list_materials, spec_list_meshes, spec_list_objects,
};

verus! {

/// Where a capability stands in its lifecycle.
#[derive(Clone, Copy, Debug, PartialEq, Eq, Structural)]
pub enum ServicePhase {
    Created,
    Started,
    Stopped,
}

/// A capability-lifecycle failure.
#[derive(Debug)]
pub enum ServiceError {
    StartupError(String),
    ShutdownError(String),
    RuntimeError(String),
}

pub enum ServiceErrorView {
    StartupError(Seq<char>),
    ShutdownError(Seq<char>),
    RuntimeError(Seq<char>),
}

impl View for ServiceError {
    type V = ServiceErrorView;

    open spec fn view(&self) -> ServiceErrorView {
        match self {
            ServiceError::StartupError(m) => ServiceErrorView::StartupError(m@),
            ServiceError::ShutdownError(m) => ServiceErrorView::ShutdownError(m@),
            ServiceError::RuntimeError(m) => ServiceErrorView::RuntimeError(m@),
        }
    }
}

/// The message text of a lifecycle error.
pub open spec fn spec_service_error_text(e: ServiceErrorView) -> Seq<char> {
    match e {
        ServiceErrorView::StartupError(m) => "Service failed to start: "@ + m,
        ServiceErrorView::ShutdownError(m) => "Service failed to stop: "@ + m,
        ServiceErrorView::RuntimeError(m) => "Service error: "@ + m,
    }
}

impl ServiceError {
    /// Renders the error as its descriptive line.
    pub fn message(&self) -> (r: String)
        ensures
            r@ == spec_service_error_text(self@),
    {
        match self {
            ServiceError::StartupError(m) => {
                let mut s = "Service failed to start: ".to_owned();
                s.append(m.as_str());
                s
            },
            ServiceError::ShutdownError(m) => {
                let mut s = "Service failed to stop: ".to_owned();
                s.append(m.as_str());
                s
            },
            ServiceError::RuntimeError(m) => {
                let mut s = "Service error: ".to_owned();
                s.append(m.as_str());
                s
            },
        }
    }
}

/// View of a unit result carrying a lifecycle error.
pub open spec fn service_result_view(r: Result<(), ServiceError>) -> Result<(), ServiceErrorView> {
    match r {
        Ok(()) => Ok(()),
        Err(e) => Err(e@),
    }
}

// ---------------------------------------------------------------------------
// Capability models
// ---------------------------------------------------------------------------

#[verifier::ext_equal]
pub struct PingServiceView {
    pub name: Seq<char>,
    pub phase: ServicePhase,
}

#[verifier::ext_equal]
pub struct BlenderServiceView {
    pub name: Seq<char>,
    pub phase: ServicePhase,
    pub scene: SceneView,
}

/// The model of a registered capability.
#[verifier::ext_equal]
pub enum ServiceView {
    Ping(PingServiceView),
    Blender(BlenderServiceView),
}

pub open spec fn svc_phase(s: ServiceView) -> ServicePhase {
    match s {
        ServiceView::Ping(p) => p.phase,
        ServiceView::Blender(b) => b.phase,
    }
}

pub open spec fn svc_with_phase(s: ServiceView, phase: ServicePhase) -> ServiceView {
    match s {
        ServiceView::Ping(p) => ServiceView::Ping(PingServiceView { phase, ..p }),
        ServiceView::Blender(b) => ServiceView::Blender(BlenderServiceView { phase, ..b }),
    }
}

pub open spec fn svc_wf(s: ServiceView) -> bool {
    match s {
        ServiceView::Ping(_) => true,
        ServiceView::Blender(b) => scene_wf(b.scene),
    }
}

/// Starting a capability marks it started; these capabilities never fail
/// to start.
pub open spec fn svc_start(s: ServiceView) -> (ServiceView, Result<(), ServiceErrorView>) {
    (svc_with_phase(s, ServicePhase::Started), Ok(()))
}

/// Stopping a capability marks it stopped; these capabilities never fail
/// to stop.
pub open spec fn svc_stop(s: ServiceView) -> (ServiceView, Result<(), ServiceErrorView>) {
    (svc_with_phase(s, ServicePhase::Stopped), Ok(()))
}

pub open spec fn ping_unhandled_text() -> Seq<char> {
    "PingService doesn't handle this message type"@
}

pub open spec fn blender_unhandled_text() -> Seq<char> {
    "BlenderService doesn't handle this message type"@
}

pub open spec fn no_service_text() -> Seq<char> {
    "No service available to handle message"@
}

/// The liveness capability answers the liveness and shutdown probes and
/// declines everything else; its state never changes.
pub open spec fn ping_handle(m: MessageView) -> ResponseView {
    match m {
        MessageView::Ping => ResponseView::Pong,
        MessageView::Stop => ResponseView::Stopped,
        _ => ResponseView::Error(ping_unhandled_text()),
    }
}

/// The scene capability translates each scene request into one scene-store
/// operation and maps its outcome to the matching response or error.
pub open spec fn blender_handle(b: BlenderServiceView, m: MessageView) -> (
    BlenderServiceView,
    ResponseView,
) {
    match m {
        MessageView::CreateCube(p) => (
            BlenderServiceView { scene: spec_create_cube(b.scene, p), ..b },
            ResponseView::Created,
        ),
        MessageView::CreateSphere(p) => {
            let (s2, r) = spec_create_sphere(b.scene, p);
            let b2 = BlenderServiceView { scene: s2, ..b };
            match r {
                Ok(()) => (b2, ResponseView::Created),
                Err(e) => (b2, ResponseView::Error(spec_api_error_text(e))),
            }
        },
        MessageView::CreateMaterial(p) => (
            BlenderServiceView { scene: spec_create_material(b.scene, p), ..b },
            ResponseView::Created,
        ),
        MessageView::AssignMaterial(p) => {
            let (s2, r) = spec_assign_material(b.scene, p);
            let b2 = BlenderServiceView { scene: s2, ..b };
            match r {
                Ok(()) => (b2, ResponseView::Created),
                Err(e) => (b2, ResponseView::Error(spec_api_error_text(e))),
            }
        },
        MessageView::GetObject(name) => match spec_get_object(b.scene, name) {
            Ok(d) => (b, ResponseView::ObjectData(d)),
            Err(e) => (b, ResponseView::Error(spec_api_error_text(e))),
        },
        MessageView::GetMaterial(name) => match spec_get_material(b.scene, name) {
            Ok(d) => (b, ResponseView::MaterialData(d)),
            Err(e) => (b, ResponseView::Error(spec_api_error_text(e))),
        },
        MessageView::ListObjects => (b, ResponseView::ObjectList(spec_list_objects(b.scene))),
        MessageView::ListMaterials => (b, ResponseView::MaterialList(spec_list_materials(b.scene))),
        MessageView::ListMeshes => (b, ResponseView::MeshList(spec_list_meshes(b.scene))),
        MessageView::ClearScene => (
            BlenderServiceView { scene: spec_clear_scene(b.scene), ..b },
            ResponseView::SceneCleared,
        ),
        _ => (b, ResponseView::Error(blender_unhandled_text())),
    }
}

/// One capability handling one message: the new capability state and the
/// response.
pub open spec fn svc_handle(s: ServiceView, m: MessageView) -> (ServiceView, ResponseView) {
    match s {
        ServiceView::Ping(p) => (ServiceView::Ping(p), ping_handle(m)),
        ServiceView::Blender(b) => {
            let (b2, r) = blender_handle(b, m);
            (ServiceView::Blender(b2), r)
        },
    }
}

/// Which request variants a capability recognizes: the liveness
/// capability the liveness and shutdown probes, the scene capability the
/// scene operations. A capability offered a request it does not recognize
/// declines with an error naming the mismatch and its state is untouched.
pub open spec fn svc_recognizes(s: ServiceView, m: MessageView) -> bool {
    match s {
        ServiceView::Ping(_) => m is Ping || m is Stop,
        ServiceView::Blender(_) => !(m is Ping || m is Stop),
    }
}

/// A capability offered a request it does not recognize declines with an
/// error and leaves its state unchanged.
pub proof fn lemma_svc_decline_unchanged(s: ServiceView, m: MessageView)
    ensures
        !svc_recognizes(s, m) ==> svc_handle(s, m).0 == s && spec_is_error(svc_handle(s, m).1),
{
}

/// A capability's non-error answer is of the variant its request maps to.
pub proof fn lemma_svc_handle_matches(s: ServiceView, m: MessageView)
    ensures
        crate::protocol::response_matches(m, svc_handle(s, m).1) || spec_is_error(
            svc_handle(s, m).1,
        ),
{
}

/// Handling a message never changes a capability's lifecycle phase, and
/// keeps the capability well-formed.
pub proof fn lemma_svc_handle_phase(s: ServiceView, m: MessageView)
    ensures
        svc_phase(svc_handle(s, m).0) == svc_phase(s),
        svc_wf(s) ==> svc_wf(svc_handle(s, m).0),
{
    match s {
        ServiceView::Ping(_) => {},
        ServiceView::Blender(b) => {
            if svc_wf(s) {
                match m {
                    MessageView::CreateCube(p) => {
                        crate::scene::lemma_upsert_object_wf(
                            b.scene,
                            crate::scene::spec_cube_object(p),
                        );
                    },
                    MessageView::CreateSphere(p) => {
                        if p.subdivisions <= crate::scene::MAX_SPHERE_SUBDIVISIONS {
                            crate::scene::lemma_upsert_object_wf(
                                b.scene,
                                crate::scene::spec_sphere_object(p),
                            );
                        }
                    },
                    MessageView::CreateMaterial(p) => {
                        crate::scene::lemma_upsert_material_wf(
                            b.scene,
                            crate::scene::spec_material_record(p),
                        );
                    },
                    MessageView::AssignMaterial(p) => {
                        crate::scene::lemma_assign_material_wf(b.scene, p);
                    },
                    MessageView::ClearScene => {
                        crate::scene::lemma_clear_scene_wf(b.scene);
                    },
                    _ => {},
                }
            }
        },
    }
}

// ---------------------------------------------------------------------------
// The capability interface and its implementations
// ---------------------------------------------------------------------------

/// A capability: one-time start, synchronous message handling, one-time
/// stop. Every implementation's behaviour is pinned to its model.
pub trait Service: Sized {
    spec fn model(&self) -> ServiceView;

    fn start(&mut self) -> (r: Result<(), ServiceError>)
        requires
            svc_wf(old(self).model()),
        ensures
            final(self).model() == svc_start(old(self).model()).0,
            service_result_view(r) == svc_start(old(self).model()).1,
            svc_wf(final(self).model()),
    ;

    fn handle_message(&mut self, msg: ServiceMessage) -> (r: ServiceResponse)
        requires
            svc_wf(old(self).model()),
        ensures
            final(self).model() == svc_handle(old(self).model(), msg@).0,
            r@ == svc_handle(old(self).model(), msg@).1,
            svc_wf(final(self).model()),
    ;

    fn handles(&self, msg: &ServiceMessage) -> (r: bool)
        ensures
            r == svc_recognizes(self.model(), msg@),
    ;

    fn stop(&mut self) -> (r: Result<(), ServiceError>)
        requires
            svc_wf(old(self).model()),
        ensures
            final(self).model() == svc_stop(old(self).model()).0,
            service_result_view(r) == svc_stop(old(self).model()).1,
            svc_wf(final(self).model()),
    ;
}

/// The trivial liveness capability.
pub struct PingService {
    name: String,
    phase: ServicePhase,
}

impl PingService {
    pub fn new(name: String) -> (r: PingService)
        ensures
            r.model() == ServiceView::Ping(
                PingServiceView { name: name@, phase: ServicePhase::Created },
            ),
    {
        PingService { name, phase: ServicePhase::Created }
    }

    pub fn phase(&self) -> (r: ServicePhase)
        ensures
            r == svc_phase(self.model()),
    {
        self.phase
    }
}

impl Service for PingService {
    closed spec fn model(&self) -> ServiceView {
        ServiceView::Ping(PingServiceView { name: self.name@, phase: self.phase })
    }

    fn start(&mut self) -> (r: Result<(), ServiceError>) {
        self.phase = ServicePhase::Started;
        Ok(())
    }

    fn handle_message(&mut self, msg: ServiceMessage) -> (r: ServiceResponse) {
        match msg {
            ServiceMessage::Ping => ServiceResponse::Pong,
            ServiceMessage::Stop => ServiceResponse::Stopped,
            _ => ServiceResponse::Error(
                "PingService doesn't handle this message type".to_owned(),
            ),
        }
    }

    fn handles(&self, msg: &ServiceMessage) -> (r: bool) {
        matches!(msg, ServiceMessage::Ping | ServiceMessage::Stop)
    }

    fn stop(&mut self) -> (r: Result<(), ServiceError>) {
        self.phase = ServicePhase::Stopped;
        Ok(())
    }
}

/// The scene-automation capability; it owns one scene store and translates
/// each scene request into exactly one operation on it.
pub struct BlenderService {
    name: String,
    phase: ServicePhase,
    api: MockBlenderApi,
}

impl BlenderService {
    pub fn new(name: String) -> (r: BlenderService)
        ensures
            r.model() == ServiceView::Blender(
                BlenderServiceView {
                    name: name@,
                    phase: ServicePhase::Created,
                    scene: spec_empty_scene(),
                },
            ),
            svc_wf(r.model()),
    {
        BlenderService { name, phase: ServicePhase::Created, api: MockBlenderApi::new() }
    }

    pub fn phase(&self) -> (r: ServicePhase)
        ensures
            r == svc_phase(self.model()),
    {
        self.phase
    }
}

impl Service for BlenderService {
    closed spec fn model(&self) -> ServiceView {
        ServiceView::Blender(
            BlenderServiceView { name: self.name@, phase: self.phase, scene: self.api@ },
        )
    }

    fn start(&mut self) -> (r: Result<(), ServiceError>) {
        self.phase = ServicePhase::Started;
        Ok(())
    }

    fn handle_message(&mut self, msg: ServiceMessage) -> (r: ServiceResponse) {
        match msg {
            ServiceMessage::CreateCube(params) => match self.api.create_cube(params) {
                Ok(()) => ServiceResponse::Created,
                Err(e) => ServiceResponse::Error(e.message()),
            },
            ServiceMessage::CreateSphere(params) => match self.api.create_sphere(params) {
                Ok(()) => ServiceResponse::Created,
                Err(e) => ServiceResponse::Error(e.message()),
            },
            ServiceMessage::CreateMaterial(params) => match self.api.create_material(params) {
                Ok(()) => ServiceResponse::Created,
                Err(e) => ServiceResponse::Error(e.message()),
            },
            ServiceMessage::AssignMaterial(params) => match self.api.assign_material(params) {
                Ok(()) => ServiceResponse::Created,
                Err(e) => ServiceResponse::Error(e.message()),
            },
            ServiceMessage::GetObject(params) => match self.api.get_object(params) {
                Ok(data) => ServiceResponse::ObjectData(data),
                Err(e) => ServiceResponse::Error(e.message()),
            },
            ServiceMessage::GetMaterial(params) => match self.api.get_material(params) {
                Ok(data) => ServiceResponse::MaterialData(data),
                Err(e) => ServiceResponse::Error(e.message()),
            },
            ServiceMessage::ListObjects => match self.api.list_objects() {
                Ok(objects) => ServiceResponse::ObjectList(objects),
                Err(e) => ServiceResponse::Error(e.message()),
            },
            ServiceMessage::ListMaterials => match self.api.list_materials() {
                Ok(materials) => ServiceResponse::MaterialList(materials),
                Err(e) => ServiceResponse::Error(e.message()),
            },
            ServiceMessage::ListMeshes => match self.api.list_meshes() {
                Ok(meshes) => ServiceResponse::MeshList(meshes),
                Err(e) => ServiceResponse::Error(e.message()),
            },
            ServiceMessage::ClearScene => match self.api.clear_scene() {
                Ok(()) => ServiceResponse::SceneCleared,
                Err(e) => ServiceResponse::Error(e.message()),
            },
            _ => ServiceResponse::Error(
                "BlenderService doesn't handle this message type".to_owned(),
            ),
        }
    }

    fn handles(&self, msg: &ServiceMessage) -> (r: bool) {
        !matches!(msg, ServiceMessage::Ping | ServiceMessage::Stop)
    }

    fn stop(&mut self) -> (r: Result<(), ServiceError>) {
        self.phase = ServicePhase::Stopped;
        Ok(())
    }
}

/// A registered capability: the closed set of concrete capability kinds
/// the manager can own.
pub enum RegisteredService {
    Ping(PingService),
    Blender(BlenderService),
}

impl DeepView for RegisteredService {
    type V = ServiceView;

    open spec fn deep_view(&self) -> ServiceView {
        self.model()
    }
}

impl Service for RegisteredService {
    open spec fn model(&self) -> ServiceView {
        match self {
            RegisteredService::Ping(p) => p.model(),
            RegisteredService::Blender(b) => b.model(),
        }
    }

    fn start(&mut self) -> (r: Result<(), ServiceError>) {
        match self {
            RegisteredService::Ping(p) => p.start(),
            RegisteredService::Blender(b) => b.start(),
        }
    }

    fn handle_message(&mut self, msg: ServiceMessage) -> (r: ServiceResponse) {
        match self {
            RegisteredService::Ping(p) => p.handle_message(msg),
            RegisteredService::Blender(b) => b.handle_message(msg),
        }
    }

    fn stop(&mut self) -> (r: Result<(), ServiceError>) {
        match self {
            RegisteredService::Ping(p) => p.stop(),
            RegisteredService::Blender(b) => b.stop(),
        }
    }

    fn handles(&self, msg: &ServiceMessage) -> (r: bool) {
        match self {
            RegisteredService::Ping(p) => p.handles(msg),
            RegisteredService::Blender(b) => b.handles(msg),
        }
    }
}

// ---------------------------------------------------------------------------
// The service manager
// ---------------------------------------------------------------------------

pub open spec fn manager_wf(ss: Seq<ServiceView>) -> bool {
    forall|i: int| 0 <= i < ss.len() ==> svc_wf(#[trigger] ss[i])
}

/// Starting all capabilities in registration order.
pub open spec fn start_all_model(ss: Seq<ServiceView>) -> Seq<ServiceView> {
    ss.map_values(|s: ServiceView| svc_start(s).0)
}

/// Stopping all capabilities in registration order; every capability is
/// reached even if one fails.
pub open spec fn stop_all_model(ss: Seq<ServiceView>) -> Seq<ServiceView> {
    ss.map_values(|s: ServiceView| svc_stop(s).0)
}

/// Index of the first capability that recognizes the message's request
/// kind, if any.
pub open spec fn handler_index(ss: Seq<ServiceView>, m: MessageView) -> Option<int> {
    ss.map_values(|s: ServiceView| svc_recognizes(s, m)).index_of_first(true)
}

/// Routing a message: the first capability that recognizes the request
/// kind answers, and its answer — success or failure — is returned as is,
/// never masked by a later capability; capabilities that do not recognize
/// the kind are passed over untouched. When no capability recognizes it,
/// a generic no-capability error comes back.
pub open spec fn route_model(ss: Seq<ServiceView>, m: MessageView) -> (
    Seq<ServiceView>,
    ResponseView,
) {
    match handler_index(ss, m) {
        Some(i) => (ss.update(i, svc_handle(ss[i], m).0), svc_handle(ss[i], m).1),
        None => (ss, ResponseView::Error(no_service_text())),
    }
}

/// The manager answers liveness and shutdown probes itself and routes
/// everything else.
pub open spec fn manager_handle(ss: Seq<ServiceView>, m: MessageView) -> (
    Seq<ServiceView>,
    ResponseView,
) {
    match m {
        MessageView::Ping => (ss, ResponseView::Pong),
        MessageView::Stop => (ss, ResponseView::Stopped),
        _ => route_model(ss, m),
    }
}

/// Every capability is stopped.
pub open spec fn all_stopped(ss: Seq<ServiceView>) -> bool {
    forall|i: int| 0 <= i < ss.len() ==> svc_phase(#[trigger] ss[i]) == ServicePhase::Stopped
}

/// Owns the ordered collection of registered capabilities.
pub struct ServiceManager {
    services: Vec<RegisteredService>,
}

impl View for ServiceManager {
    type V = Seq<ServiceView>;

    closed spec fn view(&self) -> Seq<ServiceView> {
        self.services.deep_view()
    }
}

impl ServiceManager {
    pub open spec fn wf(&self) -> bool {
        manager_wf(self@)
    }

    pub fn new() -> (r: ServiceManager)
        ensures
            r@ == Seq::<ServiceView>::empty(),
            r.wf(),
    {
        let r = ServiceManager { services: Vec::new() };
        proof {
            assert(r@ =~= Seq::<ServiceView>::empty());
        }
        r
    }

    /// Number of registered capabilities.
    pub fn len(&self) -> (r: usize)
        ensures
            r == self@.len(),
    {
        self.services.len()
    }

    /// Lifecycle phase of the capability at a registration index.
    pub fn service_phase(&self, i: usize) -> (r: ServicePhase)
        requires
            i < self@.len(),
        ensures
            r == svc_phase(self@[i as int]),
    {
        match &self.services[i] {
            RegisteredService::Ping(p) => p.phase(),
            RegisteredService::Blender(b) => b.phase(),
        }
    }

    /// Appends a capability; registration order is routing order.
    pub fn add_service(&mut self, service: RegisteredService)
        requires
            old(self).wf(),
            svc_wf(service.model()),
        ensures
            final(self)@ == old(self)@.push(service.deep_view()),
            final(self).wf(),
    {
        let ghost s_view = service.deep_view();
        self.services.push(service);
        proof {
            assert(self@ =~= old(self)@.push(s_view));
        }
    }

    /// Starts every capability strictly in registration order.
    pub fn start_all(&mut self) -> (r: Result<(), ServiceError>)
        requires
            old(self).wf(),
        ensures
            final(self)@ == start_all_model(old(self)@),
            r is Ok,
            final(self).wf(),
    {
        let n = self.services.len();
        let mut i: usize = 0;
        while i < n
            invariant
                i <= n,
                n == self.services@.len(),
                self@.len() == old(self)@.len() == n,
                forall|j: int| 0 <= j < i ==> self@[j] == svc_start(old(self)@[j]).0,
                forall|j: int| i <= j < n ==> self@[j] == old(self)@[j],
                old(self).wf(),
            decreases n - i,
        {
            let ghost prev = self@;
            proof {
                assert(self@[i as int] == old(self)@[i as int]);
                assert(svc_wf(self@[i as int]));
            }
            let _ = self.services[i].start();
            proof {
                assert(self@ =~= prev.update(i as int, svc_start(prev[i as int]).0));
            }
            i = i + 1;
        }
        proof {
            assert(self@ =~= start_all_model(old(self)@));
        }
        Ok(())
    }

    /// Stops every capability in registration order; a failure on one
    /// would not keep the rest from stopping.
    pub fn stop_all(&mut self) -> (r: Result<(), ServiceError>)
        requires
            old(self).wf(),
        ensures
            final(self)@ == stop_all_model(old(self)@),
            r is Ok,
            final(self).wf(),
    {
        let n = self.services.len();
        let mut i: usize = 0;
        while i < n
            invariant
                i <= n,
                n == self.services@.len(),
                self@.len() == old(self)@.len() == n,
                forall|j: int| 0 <= j < i ==> self@[j] == svc_stop(old(self)@[j]).0,
                forall|j: int| i <= j < n ==> self@[j] == old(self)@[j],
                old(self).wf(),
            decreases n - i,
        {
            let ghost prev = self@;
            proof {
                assert(self@[i as int] == old(self)@[i as int]);
                assert(svc_wf(self@[i as int]));
            }
            let _ = self.services[i].stop();
            proof {
                assert(self@ =~= prev.update(i as int, svc_stop(prev[i as int]).0));
            }
            i = i + 1;
        }
        proof {
            assert(self@ =~= stop_all_model(old(self)@));
        }
        Ok(())
    }

    /// Answers liveness and shutdown probes directly; offers every other
    /// message to the capabilities in registration order: the first one
    /// that recognizes the request kind answers, and its answer — success
    /// or failure — is returned as is. When no capability recognizes the
    /// kind, a generic error comes back.
    pub fn handle_message(&mut self, msg: ServiceMessage) -> (r: ServiceResponse)
        requires
            old(self).wf(),
        ensures
            final(self)@ == manager_handle(old(self)@, msg@).0,
            r@ == manager_handle(old(self)@, msg@).1,
            final(self).wf(),
    {
        if matches!(msg, ServiceMessage::Ping) {
            return ServiceResponse::Pong;
        }
        if matches!(msg, ServiceMessage::Stop) {
            return ServiceResponse::Stopped;
        }
        let ghost m = msg@;
        let ghost recs = old(self)@.map_values(|s: ServiceView| svc_recognizes(s, m));
        let n = self.services.len();
        let mut i: usize = 0;
        while i < n
            invariant
                i <= n,
                n == self.services@.len(),
                self@ == old(self)@,
                m == msg@,
                recs == old(self)@.map_values(|s: ServiceView| svc_recognizes(s, m)),
                forall|j: int| 0 <= j < i ==> recs[j] == false,
                old(self).wf(),
            decreases n - i,
        {
            let ghost prev = self@;
            if self.services[i].handles(&msg) {
                proof {
                    recs.index_of_first_ensures(true);
                    assert(recs[i as int] == true);
                    let k = recs.index_of_first(true)->Some_0;
                    assert(!(k < i)) by {
                        if 0 <= k < i {
                            assert(recs[k] == false);
                        }
                    }
                    assert(handler_index(old(self)@, m) == Some(i as int));
                    assert(svc_wf(old(self)@[i as int]));
                }
                let response = self.services[i].handle_message(msg);
                proof {
                    assert(self@ =~= old(self)@.update(i as int, svc_handle(prev[i as int], m).0));
                }
                return response;
            }
            i = i + 1;
        }
        proof {
            recs.index_of_first_ensures(true);
            if recs.index_of_first(true) is Some {
                let k = recs.index_of_first(true)->Some_0;
                assert(recs[k] == false);
            }
            assert(handler_index(old(self)@, m) is None);
        }
        ServiceResponse::Error("No service available to handle message".to_owned())
    }
}

} // verus!
