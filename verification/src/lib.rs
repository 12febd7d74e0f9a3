//! Supervision of child operating-system processes: the lifecycle state
//! machine of one managed process, the launch configuration it is started
//! with, the forwarding rule of its log-capture tasks, and the exit status it
//! leaves behind.
pub mod capture;
pub mod executable;
pub mod exit_status;
pub mod io_error;
pub mod launch;
pub mod lifecycle;
pub mod pod_service;
pub mod process_id;
