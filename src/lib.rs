//! Decision logic of a small real-time renderer: how the presentable image
//! chain is configured, which device and queue family are picked, how each
//! frame walks through its synchronisation protocol, how mesh data is laid
//! out for the vertex buffer, and in which order every GPU object is released.
//!
//! The graphics API itself is driven by the application around this library;
//! every decision it takes is made here and carries a proved contract.
pub mod device;
pub mod frame;
pub mod mesh;
pub mod pipeline;
pub mod surface;
pub mod targets;
pub mod teardown;
