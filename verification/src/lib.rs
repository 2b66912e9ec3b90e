//! A monitor for a Jenkins-style CI server: each cycle it fetches the
//! job inventory, filters out jobs that are not to be checked, fans the
//! latest-build status checks out under a concurrency ceiling, classifies
//! every outcome, and asks for a rebuild of failing jobs when retry is
//! enabled. The filtering, parsing, classification, and coordination
//! rules live here; the network and terminal sit outside.
pub mod jobs;
pub mod text;
pub mod filter;
pub mod status;
pub mod urls;
pub mod cycle;
pub mod args;
