pub mod deployment_service;
pub mod dispatcher;
pub mod engine;
pub mod ingress_service;
pub mod kinds;
pub mod namespace_service;
pub mod pod_service;
pub mod renderer;
pub mod splitter;
pub mod templates;
