//! A subscription: a topic filter and the quality of service asked for.

use vstd::prelude::*;

verus! {

/// What a client subscribes to.
#[derive(Debug, Clone)]
pub struct Subscription {
    pub topic_filter: String,
    pub qos: i32,
}

impl Subscription {
    /// A subscription to `topic_filter` at quality of service `qos`.
    pub fn new(topic_filter: String, qos: i32) -> (subscription: Subscription)
        ensures
            subscription.topic_filter == topic_filter,
            subscription.qos == qos,
    {
        Self { topic_filter, qos }
    }
}

} // verus!
