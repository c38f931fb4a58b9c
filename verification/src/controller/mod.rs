pub mod backend_client;
pub mod canary;
pub mod cancellation;
pub mod conditions;
pub mod crd;
pub mod decision_laws;
pub mod deletion;
pub mod deploy;
pub mod drift;
pub mod error_handling;
pub mod events;
pub mod health;
pub mod helm_client;
pub mod history;
pub mod laws;
pub mod leader;
pub mod otel;
pub mod propagation;
pub mod readiness;
pub mod reconciler;
pub mod rollout_laws;
pub mod recovery;
pub mod resource_laws;
pub mod route;
pub mod slots;
pub mod traits;
pub mod weight;
