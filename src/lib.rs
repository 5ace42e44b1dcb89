//! Progressive HTML streaming over a single open response.
//!
//! A [`renderer::Renderer`] writes markup into a [`sink::Sink`] and names
//! the places it may later overwrite with numbered slots ("mounts").
//! Replacing a mount appends a fragment that projects fresh content into
//! that slot, so the browser rewrites the live document without script.
pub mod decimal;
pub mod sink;
pub mod renderer;
pub mod markup;
pub mod state;
