//! Declarations of the WebRTC engine's types that the session state
//! carries, and the call that assembles the engine bundle.
//!
//! Every value of these types is opaque here: the engine owns their
//! meaning, and the library only stores and hands them through.

use vstd::prelude::*;

verus! {

#[verifier::external_type_specification]
#[verifier::external_body]
pub struct ExApi(webrtc::api::API);

#[verifier::external_type_specification]
#[verifier::external_body]
pub struct ExIceServer(webrtc::ice_transport::ice_server::RTCIceServer);

/// Relies on MediaEngine::default, Registry::new,
/// register_default_interceptors and APIBuilder: assembles the engine
/// bundle from a fresh default media engine and an empty interceptor
/// registry with the default NACK, RTCP-report and TWCC interceptors
/// registered. On exactly these arguments the registration cannot
/// fail — its only error paths are a direction conflict on an already
/// registered TWCC header extension and an overfull extension table,
/// neither reachable on a fresh engine — so the assembly is total.
#[verifier::external_body]
pub(crate) fn assemble_default_api() -> webrtc::api::API {
    let mut media_engine = webrtc::api::media_engine::MediaEngine::default();
    let registry = webrtc::interceptor::registry::Registry::new();
    let registry = webrtc::api::interceptor_registry::register_default_interceptors(
        registry,
        &mut media_engine,
    )
    .expect("a fresh default engine accepts the default interceptors");
    webrtc::api::APIBuilder::new()
        .with_media_engine(media_engine)
        .with_interceptor_registry(registry)
        .build()
}

} // verus!
