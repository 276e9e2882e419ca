//! The decisions of a small CI/CD platform that deploys Git repositories as
//! Docker containers behind an Nginx reverse proxy: the deployment pipeline,
//! project detection, port allocation, site names and proxy configuration,
//! job statuses and the answers of the HTTP API. The I/O around them lives
//! in the server program.
pub mod accounts;
pub mod commands;
pub mod deploy_flow;
pub mod github;
pub mod job_status;
pub mod port_assignment;
pub mod port_pool;
pub mod project;
pub mod replies;
pub mod requests;
pub mod settings;
pub mod site;
pub mod text;
pub mod ws;
