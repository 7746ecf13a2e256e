//! Chart descriptions: traces of plotted points, and the layout around them.

use crate::event::Timestamp;
use vstd::prelude::*;

verus! {

/// An exact plotted value: `num / den`.
#[derive(Clone, Copy, Debug, PartialEq, Eq, Structural)]
pub struct Ratio {
    pub num: i128,
    pub den: u128,
}

/// One named series of a chart: parallel `x` and `y` arrays and rendering hints.
#[derive(Clone, Debug, PartialEq, Eq)]
pub struct Trace<T> {
    pub x: Vec<Timestamp>,
    pub y: Vec<T>,
    pub yaxis: Option<String>,
    pub mode: Option<String>,
    pub name: Option<String>,
    pub typ: Option<String>,
}

/// The traces of one chart, in drawing order.
pub type Data<T> = Vec<Trace<T>>;

/// Chart-wide rendering metadata.
#[derive(Clone, Debug, PartialEq, Eq)]
pub struct Layout {
    pub title: String,
    pub xaxis: Option<Axis>,
    pub yaxis: Option<Axis>,
    pub yaxis2: Option<Axis>,
    pub barmode: Option<String>,
}

/// One axis of a layout.
#[derive(Clone, Debug, PartialEq, Eq)]
pub struct Axis {
    pub title: String,
    pub side: Option<String>,
    pub overlaying: Option<String>,
}

/// The characters of an optional string.
pub open spec fn text(o: Option<String>) -> Option<Seq<char>> {
    match o {
        Some(s) => Some(s@),
        None => None,
    }
}

/// What an [`Axis`] says, as plain character sequences.
pub struct AxisModel {
    pub title: Seq<char>,
    pub side: Option<Seq<char>>,
    pub overlaying: Option<Seq<char>>,
}

/// What a [`Layout`] says, as plain character sequences.
pub struct LayoutModel {
    pub title: Seq<char>,
    pub xaxis: Option<AxisModel>,
    pub yaxis: Option<AxisModel>,
    pub yaxis2: Option<AxisModel>,
    pub barmode: Option<Seq<char>>,
}

/// The rendering hints of a [`Trace`], as plain character sequences.
pub struct Hints {
    pub yaxis: Option<Seq<char>>,
    pub mode: Option<Seq<char>>,
    pub name: Option<Seq<char>>,
    pub typ: Option<Seq<char>>,
}

/// What a [`Trace`] plots, with its hints as plain character sequences.
pub struct TraceModel<T> {
    pub x: Seq<Timestamp>,
    pub y: Seq<T>,
    pub hints: Hints,
}

impl<T> View for Trace<T> {
    type V = TraceModel<T>;

    open spec fn view(&self) -> TraceModel<T> {
        TraceModel { x: self.x@, y: self.y@, hints: self.hints() }
    }
}

/// The models of a chart's traces, in order.
pub open spec fn chart_view<T>(data: Seq<Trace<T>>) -> Seq<TraceModel<T>> {
    Seq::new(data.len(), |k: int| data[k]@)
}

impl View for Axis {
    type V = AxisModel;

    open spec fn view(&self) -> AxisModel {
        AxisModel { title: self.title@, side: text(self.side), overlaying: text(self.overlaying) }
    }
}

/// The model of an optional axis.
pub open spec fn axis_text(o: Option<Axis>) -> Option<AxisModel> {
    match o {
        Some(a) => Some(a@),
        None => None,
    }
}

impl View for Layout {
    type V = LayoutModel;

    open spec fn view(&self) -> LayoutModel {
        LayoutModel {
            title: self.title@,
            xaxis: axis_text(self.xaxis),
            yaxis: axis_text(self.yaxis),
            yaxis2: axis_text(self.yaxis2),
            barmode: text(self.barmode),
        }
    }
}

impl<T> Trace<T> {
    /// The trace's rendering hints.
    pub open spec fn hints(&self) -> Hints {
        Hints {
            yaxis: text(self.yaxis),
            mode: text(self.mode),
            name: text(self.name),
            typ: text(self.typ),
        }
    }

    /// Every `x` has its `y`.
    pub open spec fn well_formed(&self) -> bool {
        self.x@.len() == self.y@.len()
    }
}

} // verus!
