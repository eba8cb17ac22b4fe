//! A task list served over HTTP: the task records, the store that issues
//! their ids, and the routing and response rules of the service.
pub mod models;
pub mod store;
pub mod routing;
pub mod handlers;
