use vstd::prelude::*;

verus! {

/// Per-topic message counter.
pub type HeaderId = u32;

/// A single-precision real number, held by its IEEE-754 bit pattern.
///
/// The library carries such values from message to message and never
/// computes with them; the arithmetic on positions happens where the
/// values are decoded.
#[derive(Clone, Copy, Debug, PartialEq, Eq, Structural)]
pub struct Scalar {
    pub bits: u32,
}

impl Scalar {
    /// The number zero.
    pub fn zero() -> (r: Scalar)
        ensures
            r.bits == 0,
    {
        Scalar { bits: 0 }
    }
}

/// Position of the vehicle on its map.
#[derive(Debug)]
pub struct AgvPosition {
    pub x: Scalar,
    pub y: Scalar,
    /// Heading, in radians.
    pub theta: Scalar,
    pub position_initialized: bool,
    pub map_id: String,
    pub deviation_range: Option<Scalar>,
    pub map_description: Option<String>,
    pub localization_score: Option<Scalar>,
}

/// An `AgvPosition` with its strings as character sequences.
pub struct PositionView {
    pub x: Scalar,
    pub y: Scalar,
    pub theta: Scalar,
    pub position_initialized: bool,
    pub map_id: Seq<char>,
    pub deviation_range: Option<Scalar>,
    pub map_description: Option<Seq<char>>,
    pub localization_score: Option<Scalar>,
}

impl View for AgvPosition {
    type V = PositionView;

    open spec fn view(&self) -> PositionView {
        PositionView {
            x: self.x,
            y: self.y,
            theta: self.theta,
            position_initialized: self.position_initialized,
            map_id: self.map_id@,
            deviation_range: self.deviation_range,
            map_description: match self.map_description {
                Some(d) => Some(d@),
                None => None,
            },
            localization_score: self.localization_score,
        }
    }
}

/// The view of an optional position.
pub open spec fn position_view(p: Option<AgvPosition>) -> Option<PositionView> {
    match p {
        Some(q) => Some(q@),
        None => None,
    }
}

impl Clone for AgvPosition {
    fn clone(&self) -> (r: Self)
        ensures
            r == *self,
    {
        AgvPosition {
            x: self.x,
            y: self.y,
            theta: self.theta,
            position_initialized: self.position_initialized,
            map_id: self.map_id.clone(),
            deviation_range: self.deviation_range,
            map_description: self.map_description.clone(),
            localization_score: self.localization_score,
        }
    }
}

/// Position of a node of an order.
#[derive(Debug)]
pub struct NodePosition {
    pub x: Scalar,
    pub y: Scalar,
    pub theta: Option<Scalar>,
    pub allowed_deviation_xy: Option<Scalar>,
    pub allowed_deviation_theta: Option<Scalar>,
    pub map_id: String,
    pub map_description: Option<String>,
}

impl Clone for NodePosition {
    fn clone(&self) -> (r: Self)
        ensures
            r == *self,
    {
        NodePosition {
            x: self.x,
            y: self.y,
            theta: self.theta,
            allowed_deviation_xy: self.allowed_deviation_xy,
            allowed_deviation_theta: self.allowed_deviation_theta,
            map_id: self.map_id.clone(),
            map_description: self.map_description.clone(),
        }
    }
}

/// Control point of a NURBS trajectory.
#[derive(Clone, Copy, Debug, PartialEq, Eq, Structural)]
pub struct ControlPoint {
    pub x: Scalar,
    pub y: Scalar,
    pub orientation: Option<Scalar>,
    /// Absent means weight one.
    pub weight: Option<Scalar>,
}

/// NURBS curve along which an edge is driven.
#[derive(Debug)]
pub struct Trajectory {
    pub degree: i64,
    pub knot_vector: Vec<Scalar>,
    pub control_points: Vec<ControlPoint>,
}

impl Trajectory {
    /// Same degree, knots and control points.
    pub open spec fn same_as(self, other: Trajectory) -> bool {
        &&& self.degree == other.degree
        &&& self.knot_vector@ == other.knot_vector@
        &&& self.control_points@ == other.control_points@
    }
}

/// Two optional trajectories that are both absent, or both present and the same.
pub open spec fn same_trajectory(a: Option<Trajectory>, b: Option<Trajectory>) -> bool {
    match (a, b) {
        (None, None) => true,
        (Some(t), Some(u)) => t.same_as(u),
        _ => false,
    }
}

impl Clone for Trajectory {
    fn clone(&self) -> (r: Self)
        ensures
            r.same_as(*self),
    {
        let knot_vector = self.knot_vector.clone();
        let control_points = self.control_points.clone();
        proof {
            assert(knot_vector@ =~= self.knot_vector@);
            assert(control_points@ =~= self.control_points@);
        }
        Trajectory { degree: self.degree, knot_vector, control_points }
    }
}

/// How a trajectory is followed: along the chord between its two control
/// points, or by sampling the curve.
#[derive(Clone, Copy, Debug, PartialEq, Eq, Structural)]
pub enum StepMethod {
    StraightLine,
    Curve,
}

impl Trajectory {
    /// A curve of degree one with exactly two control points is a straight
    /// segment and is stepped along as one.
    pub fn step_method(&self) -> (r: StepMethod)
        ensures
            r == StepMethod::StraightLine <==> (self.degree == 1
                && self.control_points@.len() == 2),
    {
        if self.degree == 1 && self.control_points.len() == 2 {
            StepMethod::StraightLine
        } else {
            StepMethod::Curve
        }
    }
}

/// Velocity of the vehicle in its own frame.
#[derive(Clone, Copy, Debug, PartialEq, Eq, Structural)]
pub struct Velocity {
    pub vx: Option<Scalar>,
    pub vy: Option<Scalar>,
    pub omega: Option<Scalar>,
}

} // verus!
