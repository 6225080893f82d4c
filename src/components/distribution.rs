use vstd::prelude::*;

verus! {

/// A random quantity described by a location and a spread, both in thousandths.
///
/// Drawing from it happens outside the verified core; what the core decides is
/// whether the parameters admit a draw at all.
#[derive(Debug, Clone, Copy, PartialEq, Eq, Structural)]
pub enum DistributionType {
    Normal { mean: i64, std_dev: i64 },
    LogNormal { location: i64, scale: i64 },
}

impl DistributionType {
    /// The location parameter: the mean of a normal law, the log-location of a
    /// log-normal one.
    pub open spec fn spec_location(self) -> i64 {
        match self {
            DistributionType::Normal { mean, .. } => mean,
            DistributionType::LogNormal { location, .. } => location,
        }
    }

    /// The spread parameter: the standard deviation or the log-scale.
    pub open spec fn spec_spread(self) -> i64 {
        match self {
            DistributionType::Normal { std_dev, .. } => std_dev,
            DistributionType::LogNormal { scale, .. } => scale,
        }
    }

    /// The value every sample takes when the spread is not positive, so that
    /// sampling never fails; `None` when a random draw is needed.
    pub fn fallback(&self) -> (r: Option<i64>)
        ensures
            r == (if self.spec_spread() <= 0 {
                Some(self.spec_location())
            } else {
                None::<i64>
            }),
    {
        match self {
            Self::Normal { mean, std_dev } => {
                if *std_dev <= 0 {
                    Some(*mean)
                } else {
                    None
                }
            },
            Self::LogNormal { location, scale } => {
                if *scale <= 0 {
                    Some(*location)
                } else {
                    None
                }
            },
        }
    }
}

} // verus!
