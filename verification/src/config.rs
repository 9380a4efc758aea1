//! Engine configuration as seen from the boundary: the derived plot metric
//! (name, monotonicity and a caller-supplied metric callback) and the value
//! kinds that cross the wire as one-byte codes.

use vstd::prelude::*;

use crate::text::Utf8Text;

verus! {

/// How a derived plot metric is to be read: a larger value is better,
/// worse, or neither.  Crosses the wire as a one-byte code.
#[derive(Clone, Copy, PartialEq, Eq, Structural, Debug)]
pub enum LibDiolMonotonicity {
    Neutral,
    HigherIsBetter,
    LowerIsBetter,
}

impl LibDiolMonotonicity {
    /// The wire code of this value.
    pub open spec fn spec_code(self) -> u8 {
        match self {
            LibDiolMonotonicity::Neutral => 0,
            LibDiolMonotonicity::HigherIsBetter => 1,
            LibDiolMonotonicity::LowerIsBetter => 2,
        }
    }

    /// Encodes for the wire.
    pub fn as_code(&self) -> (c: u8)
        ensures
            c == self.spec_code(),
    {
        match self {
            LibDiolMonotonicity::Neutral => 0,
            LibDiolMonotonicity::HigherIsBetter => 1,
            LibDiolMonotonicity::LowerIsBetter => 2,
        }
    }

    /// Decodes a wire byte; succeeds exactly on the three defined codes.
    pub fn from_code(c: u8) -> (r: Option<LibDiolMonotonicity>)
        ensures
            r is Some <==> c <= 2,
            r matches Some(m) ==> m.spec_code() == c,
    {
        if c == 0 {
            Some(LibDiolMonotonicity::Neutral)
        } else if c == 1 {
            Some(LibDiolMonotonicity::HigherIsBetter)
        } else if c == 2 {
            Some(LibDiolMonotonicity::LowerIsBetter)
        } else {
            None
        }
    }
}

/// Colors to use for the generated plot.
#[derive(Clone, Copy, PartialEq, Eq, Structural, Debug)]
pub enum LibDiolPlotColors {
    CubehelixDefault,
    Turbo,
    Spectral,
    Viridis,
    Magma,
    Inferno,
    Plasma,
    Cividis,
    Warm,
    Cool,
}

impl LibDiolPlotColors {
    /// The wire code of this value.
    pub open spec fn spec_code(self) -> u8 {
        match self {
            LibDiolPlotColors::CubehelixDefault => 0,
            LibDiolPlotColors::Turbo => 1,
            LibDiolPlotColors::Spectral => 2,
            LibDiolPlotColors::Viridis => 3,
            LibDiolPlotColors::Magma => 4,
            LibDiolPlotColors::Inferno => 5,
            LibDiolPlotColors::Plasma => 6,
            LibDiolPlotColors::Cividis => 7,
            LibDiolPlotColors::Warm => 8,
            LibDiolPlotColors::Cool => 9,
        }
    }

    /// Encodes for the wire.
    pub fn as_code(&self) -> (c: u8)
        ensures
            c == self.spec_code(),
    {
        match self {
            LibDiolPlotColors::CubehelixDefault => 0,
            LibDiolPlotColors::Turbo => 1,
            LibDiolPlotColors::Spectral => 2,
            LibDiolPlotColors::Viridis => 3,
            LibDiolPlotColors::Magma => 4,
            LibDiolPlotColors::Inferno => 5,
            LibDiolPlotColors::Plasma => 6,
            LibDiolPlotColors::Cividis => 7,
            LibDiolPlotColors::Warm => 8,
            LibDiolPlotColors::Cool => 9,
        }
    }

    /// Decodes a wire byte; succeeds exactly on the ten defined codes.
    pub fn from_code(c: u8) -> (r: Option<LibDiolPlotColors>)
        ensures
            r is Some <==> c <= 9,
            r matches Some(p) ==> p.spec_code() == c,
    {
        if c == 0 {
            Some(LibDiolPlotColors::CubehelixDefault)
        } else if c == 1 {
            Some(LibDiolPlotColors::Turbo)
        } else if c == 2 {
            Some(LibDiolPlotColors::Spectral)
        } else if c == 3 {
            Some(LibDiolPlotColors::Viridis)
        } else if c == 4 {
            Some(LibDiolPlotColors::Magma)
        } else if c == 5 {
            Some(LibDiolPlotColors::Inferno)
        } else if c == 6 {
            Some(LibDiolPlotColors::Plasma)
        } else if c == 7 {
            Some(LibDiolPlotColors::Cividis)
        } else if c == 8 {
            Some(LibDiolPlotColors::Warm)
        } else if c == 9 {
            Some(LibDiolPlotColors::Cool)
        } else {
            None
        }
    }
}

/// A custom derived plot metric: its display name, how to read it, and a
/// token standing for the caller's metric function pointer.
pub struct LibDiolMetric {
    pub name: Utf8Text,
    pub monotonicity: LibDiolMonotonicity,
    pub metric_fn: usize,
}

/// One engine configuration value owned behind a configuration handle.
pub struct LibDiolConfig {
    pub metric: Option<LibDiolMetric>,
}

impl View for LibDiolConfig {
    type V = Option<(Seq<u8>, LibDiolMonotonicity, usize)>;

    open spec fn view(&self) -> Option<(Seq<u8>, LibDiolMonotonicity, usize)> {
        match self.metric {
            Option::None => Option::None,
            Option::Some(m) => Option::Some((m.name@, m.monotonicity, m.metric_fn)),
        }
    }
}

impl LibDiolConfig {
    /// Any installed metric has a well-formed name.
    pub open spec fn wf(self) -> bool {
        self.metric matches Some(m) ==> m.name.wf()
    }

    /// A fresh configuration with no custom metric installed.
    pub fn new() -> (c: LibDiolConfig)
        ensures
            c@ is None,
            c.wf(),
    {
        LibDiolConfig { metric: None }
    }

    /// Installs a custom derived plot metric, replacing any previously
    /// installed one.  A malformed name is a caller contract violation and
    /// is excluded here; the raw entry point aborts on it.
    pub fn set_metric(
        &mut self,
        name: Utf8Text,
        monotonicity: LibDiolMonotonicity,
        metric_fn: usize,
    )
        requires
            old(self).wf(),
            name.wf(),
        ensures
            final(self).wf(),
            final(self)@ == Option::Some((name@, monotonicity, metric_fn)),
    {
        self.metric = Some(LibDiolMetric { name, monotonicity, metric_fn });
    }

    /// Copies the configuration, as suite creation does: the source is
    /// borrowed, never consumed.
    pub fn duplicate(&self) -> (r: LibDiolConfig)
        ensures
            r@ == self@,
            self.wf() ==> r.wf(),
    {
        match &self.metric {
            None => LibDiolConfig { metric: None },
            Some(m) => LibDiolConfig {
                metric: Some(
                    LibDiolMetric {
                        name: m.name.duplicate(),
                        monotonicity: m.monotonicity,
                        metric_fn: m.metric_fn,
                    },
                ),
            },
        }
    }
}

} // verus!
