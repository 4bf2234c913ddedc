//! A small file-serving HTTP daemon core: request parsing, response
//! serialisation, method routing over a sandboxed file tree, and the
//! job-queue logic of a fixed-size worker pool.
pub mod http;
pub mod text;
pub mod strmap;
pub mod response;
pub mod request;
pub mod paths;
pub mod routing;
pub mod memfs;
pub mod laws;
pub mod pool;
pub mod tabs;
