use vstd::prelude::*;

verus! {

/// The names that the car model gives its four wheels.
pub open spec fn is_wheel_name_spec(name: Seq<char>) -> bool {
    name == "wheel-back-left"@ || name == "wheel-back-right"@ || name == "wheel-front-left"@
        || name == "wheel-front-right"@
}

/// Whether a node of the car model is one of its wheels, by name.
pub fn is_wheel_name(name: &str) -> (r: bool)
    ensures
        r == is_wheel_name_spec(name@),
{
    let n = name.to_owned();
    let back_left = "wheel-back-left".to_owned();
    let back_right = "wheel-back-right".to_owned();
    let front_left = "wheel-front-left".to_owned();
    let front_right = "wheel-front-right".to_owned();
    n == back_left || n == back_right || n == front_left || n == front_right
}

/// Number of wheels the car model has.
pub const WHEEL_COUNT: usize = 4;

/// Whether the wheel search is still needed: until all wheels are tagged.
pub fn wheels_missing(tagged: usize) -> (r: bool)
    ensures
        r == (tagged < WHEEL_COUNT),
{
    tagged < WHEEL_COUNT
}

/// Distance of the `i`-th obstacle from the centre, in mm: 40, 60 or 80 m in turn.
pub fn obstacle_radius(i: u32) -> (r: i64)
    ensures
        r == 40_000 + (i % 3) * 20_000,
{
    40_000 + ((i % 3) as i64) * 20_000
}

/// The shapes of the objects scattered over the ground.
#[derive(Clone, Copy, Debug, PartialEq, Eq, Structural)]
pub enum ScatterKind {
    RedCube,
    BlueSphere,
    YellowCylinder,
    PurpleCube,
}

impl ScatterKind {
    /// The `i`-th scattered object's shape, in turn.
    pub fn of_index(i: u32) -> (r: ScatterKind)
        ensures
            i % 4 == 0 ==> r == ScatterKind::RedCube,
            i % 4 == 1 ==> r == ScatterKind::BlueSphere,
            i % 4 == 2 ==> r == ScatterKind::YellowCylinder,
            i % 4 == 3 ==> r == ScatterKind::PurpleCube,
    {
        let k = i % 4;
        if k == 0 {
            ScatterKind::RedCube
        } else if k == 1 {
            ScatterKind::BlueSphere
        } else if k == 2 {
            ScatterKind::YellowCylinder
        } else {
            ScatterKind::PurpleCube
        }
    }

    /// Height of the object's centre above the ground, in mm.
    pub fn rest_height(&self) -> (r: i64)
        ensures
            *self == ScatterKind::RedCube ==> r == 500,
            *self == ScatterKind::BlueSphere ==> r == 500,
            *self == ScatterKind::YellowCylinder ==> r == 750,
            *self == ScatterKind::PurpleCube ==> r == 1000,
    {
        match self {
            ScatterKind::RedCube => 500,
            ScatterKind::BlueSphere => 500,
            ScatterKind::YellowCylinder => 750,
            ScatterKind::PurpleCube => 1000,
        }
    }

    /// The object's mass, in kg.
    pub fn mass(&self) -> (r: i64)
        ensures
            *self == ScatterKind::RedCube ==> r == 50,
            *self == ScatterKind::BlueSphere ==> r == 30,
            *self == ScatterKind::YellowCylinder ==> r == 80,
            *self == ScatterKind::PurpleCube ==> r == 50,
    {
        match self {
            ScatterKind::RedCube => 50,
            ScatterKind::BlueSphere => 30,
            ScatterKind::YellowCylinder => 80,
            ScatterKind::PurpleCube => 50,
        }
    }
}

/// Bare tag of everything that belongs to a race and goes when it ends.
#[derive(Clone, Copy, Debug, PartialEq, Eq, Structural)]
pub struct GameEntity;

/// Bare tag of the car's body, whose model holds the wheels.
#[derive(Clone, Copy, Debug, PartialEq, Eq, Structural)]
pub struct CarModel;

/// Bare marker for the race world stage of the game.
#[derive(Clone, Copy, Debug, PartialEq, Eq, Structural)]
pub struct WorldPlugin;

} // verus!
