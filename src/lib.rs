//! Verified core of a streaming-media reverse proxy: request decoding,
//! outbound header forging, origin gatekeeping and HLS playlist rewriting.

pub mod text;
pub mod percent;
pub mod weburl;
pub mod playlist;
pub mod gate;
pub mod policy;
pub mod headers;
pub mod request;
pub mod proxy;
