//! Request buffering queue in front of a handler.

use vstd::prelude::*;

verus! {

/// Buffer layers of `tower`.
#[verifier::external_type_specification]
#[verifier::external_body]
#[verifier::reject_recursive_types(Request)]
pub struct ExBufferLayer<Request>(tower::buffer::BufferLayer<Request>);

/// Creates a buffer layer with `tower::buffer::BufferLayer::new`, which keeps the
/// bound for the services it wraps.
#[verifier::external_body]
fn tower_buffer_layer<T>(bound: usize) -> (r: tower::buffer::BufferLayer<T>)
    requires
        bound > 0,
{
    tower::buffer::BufferLayer::new(bound)
}

/// Configuration for request buffering queue layer.
#[derive(Clone, Copy, Debug, PartialEq, Eq, Structural)]
pub struct HandlerBufferConfig {
    /// Buffer queue depth; never zero.
    pub queue: usize,
}

impl HandlerBufferConfig {
    /// A buffer of a positive depth.
    pub fn new(queue: usize) -> (r: Option<HandlerBufferConfig>)
        ensures
            r is Some <==> queue > 0,
            r matches Some(c) ==> c.queue == queue,
    {
        if queue > 0 {
            Some(HandlerBufferConfig { queue })
        } else {
            None
        }
    }

    /// Create layer for use in tower services.
    pub fn make_layer<T>(&self) -> (r: tower::buffer::BufferLayer<T>)
        requires
            self.queue > 0,
    {
        tower_buffer_layer(self.queue)
    }
}

} // verus!
