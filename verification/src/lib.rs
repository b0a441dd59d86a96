//! A verified counting semaphore for future-based concurrency: permits are
//! acquired through handles that resolve at once or once a release signals
//! them, waiters are served strictly in arrival order, and the laws of
//! fairness and conservation are proved over a model of whole runs.

pub mod model;
pub mod sync;
