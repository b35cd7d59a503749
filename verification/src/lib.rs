//! Resolution, locking and content-addressed extraction of kit images.
//!
//! A project names the kits it depends on. Each kit is an image in a registry
//! and carries, in a label, the SDK it needs and its own kit dependencies. The
//! library walks that graph, pins every image to a digest, checks a stored
//! lock against a fresh resolution, and plans how a pinned image is pulled
//! into a cache keyed by digest and unpacked exactly once.
//!
//! Nothing here touches the network or the disk: every function with outside
//! work is a step function that names the next request and takes its answer.
//! That the steps of a resolution come to an end, over any registry whose
//! kits have finitely many names, is proved of them as a whole.
//!
//! Two smaller parts stand beside that: the checks that a build makes on a
//! manifest before it starts, and what a status report selects and shows of
//! the test runs of a cluster.
pub mod text;
pub mod version;
pub mod digest;
pub mod json;
pub mod image;
pub mod error;
pub mod metadata;
pub mod manifest;
pub mod lock;
pub mod resolve;
pub mod archive;
pub mod buildsys;
pub mod status;
pub mod run;
