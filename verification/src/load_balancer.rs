//! Load-balancing strategies and the selections among servers that need no
//! measured scores: round robin and fewest active connections.
//!
//! Health scores and response times are floating-point measurements; the
//! strategies that rank by them are applied by the application.
use vstd::prelude::*;

verus! {

/// Load balancing strategy
#[derive(Debug, Clone, Copy, PartialEq, Eq, Structural)]
pub enum LoadBalancingStrategy {
    /// Round-robin selection
    RoundRobin,
    /// Weighted round-robin based on server performance
    WeightedRoundRobin,
    /// Least connections
    LeastConnections,
    /// Fastest response time
    FastestResponse,
    /// Health-based selection
    HealthBased,
    /// Adaptive strategy that combines multiple factors
    Adaptive,
}

impl LoadBalancingStrategy {
    /// The strategy's name, as its `Debug` form prints it.
    pub fn name(&self) -> (n: &'static str)
        ensures
            *self == LoadBalancingStrategy::RoundRobin ==> n@ == "RoundRobin"@,
            *self == LoadBalancingStrategy::WeightedRoundRobin ==> n@ == "WeightedRoundRobin"@,
            *self == LoadBalancingStrategy::LeastConnections ==> n@ == "LeastConnections"@,
            *self == LoadBalancingStrategy::FastestResponse ==> n@ == "FastestResponse"@,
            *self == LoadBalancingStrategy::HealthBased ==> n@ == "HealthBased"@,
            *self == LoadBalancingStrategy::Adaptive ==> n@ == "Adaptive"@,
    {
        match self {
            LoadBalancingStrategy::RoundRobin => "RoundRobin",
            LoadBalancingStrategy::WeightedRoundRobin => "WeightedRoundRobin",
            LoadBalancingStrategy::LeastConnections => "LeastConnections",
            LoadBalancingStrategy::FastestResponse => "FastestResponse",
            LoadBalancingStrategy::HealthBased => "HealthBased",
            LoadBalancingStrategy::Adaptive => "Adaptive",
        }
    }
}

/// The position the round-robin counter points at among `len` servers.
pub fn round_robin_index(counter: u64, len: usize) -> (i: usize)
    requires
        len > 0,
    ensures
        i == counter % (len as u64),
        i < len,
{
    (counter % (len as u64)) as usize
}

/// The position of the server with the fewest active connections; the
/// first of them where several tie. `None` where there is no server.
pub fn least_connections_index(connections: &Vec<u32>) -> (r: Option<usize>)
    ensures
        connections@.len() == 0 <==> r is None,
        r matches Some(i) ==> i < connections@.len()
            && (forall|j: int| 0 <= j < connections@.len() ==> connections@[i as int] <= #[trigger] connections@[j])
            && (forall|j: int| 0 <= j < i ==> connections@[i as int] < #[trigger] connections@[j]),
{
    if connections.len() == 0 {
        return None;
    }
    let mut best: usize = 0;
    let mut k: usize = 1;
    while k < connections.len()
        invariant
            best < k <= connections@.len(),
            forall|j: int| 0 <= j < k ==> connections@[best as int] <= #[trigger] connections@[j],
            forall|j: int| 0 <= j < best ==> connections@[best as int] < #[trigger] connections@[j],
        decreases connections.len() - k,
    {
        if connections[k] < connections[best] {
            best = k;
        }
        k = k + 1;
    }
    Some(best)
}

} // verus!
