//! The marker by which a host engine is told to make streams playable.

use vstd::prelude::*;

verus! {

/// A plugin that enables the use of
/// [`AudioStreamSource`](crate::source::AudioStreamSource) in a host engine.
///
/// The streaming core knows nothing of any engine, so the plugin carries no
/// state and does no work here: an adapter for a given engine turns it into
/// that engine's own plugin type, which registers the source with the
/// engine's audio backend once at startup.
pub struct AudioStreamPlugin;

} // verus!
