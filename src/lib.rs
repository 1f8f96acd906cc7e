//! A status-line producer for a tiling window manager's bar protocol:
//! per-source rendering, the line-delimited JSON codec, click routing and
//! the decisions of the volume and media sources.

pub mod block;
pub mod blocks;
pub mod text;
pub mod i3bar;
pub mod registry;
