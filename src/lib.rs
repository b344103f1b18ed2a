//! Verified core of an HTTP audio relay: the rules that validate requests,
//! drive an external producer process through a bounded queue, and shape the
//! two lookup collaborators' requests and answers.
pub mod error;
pub mod relay;
pub mod body;
pub mod laws;
pub mod endpoint;
pub mod lookup;
pub mod catalog;
