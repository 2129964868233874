pub mod branches;
pub mod changeset;
pub mod credentials;
pub mod editor;
pub mod errors;
pub mod failure;
pub mod pipeline;
pub mod pull_request;
pub mod remote;
pub mod run;
pub mod text;
