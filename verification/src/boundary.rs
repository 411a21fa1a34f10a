//! Checks at the edge of the engine: what may enter a calculation, what may
//! leave it, and how a lookup ends.
//!
//! The solvers detect nothing themselves: a pressure or a pseudo-critical
//! property that is not positive propagates as a NaN or an infinity. So
//! inputs are checked before a calculation and results after it.

use vstd::prelude::*;
use crate::binary64::Double;

verus! {

/// Credentials of a login request.
#[derive(Clone, Debug)]
pub struct LoginReq {
    pub username: String,
    pub password: String,
}

/// Request for the stored data of one well.
#[derive(Clone, Debug)]
pub struct WellDataReq {
    pub well_no: String,
}

/// Why a request is answered without a result.
#[derive(Clone, Copy, Debug, PartialEq, Eq, Structural)]
pub enum Failure {
    /// An input is not positive, an array is empty, or a result is not a
    /// finite number.
    InvalidInput,
    /// No stored record matches.
    NotFound,
    /// The credentials match no user.
    Unauthorized,
    /// The store could not be queried.
    Internal,
}

/// How a query of the store ended.
#[derive(Clone, Copy, Debug, PartialEq, Eq, Structural)]
pub enum Lookup {
    /// The query failed.
    Failed,
    /// The query ran and matched this many rows.
    Rows(usize),
}

/// The result bundle of one pressure point.
#[derive(Clone, Copy, Debug)]
pub struct PvtPoint {
    pub z: Double,
    pub bg: Double,
    pub cg: Double,
    pub niandu: Double,
    pub density: Double,
}

/// Every element is greater than zero.
pub open spec fn all_positive(values: Seq<Double>) -> bool {
    forall|i: int| 0 <= i < values.len() ==> (#[trigger] values[i]).positive()
}

/// What a batch calculation accepts: positive pseudo-critical pressure and
/// temperature, and at least one pressure, each of them positive.
pub open spec fn batch_accepted(pc: Double, tc: Double, pressures: Seq<Double>) -> bool {
    &&& pc.positive()
    &&& tc.positive()
    &&& pressures.len() > 0
    &&& all_positive(pressures)
}

impl PvtPoint {
    /// All five properties are finite numbers.
    pub open spec fn finite(self) -> bool {
        &&& self.z.finite()
        &&& self.bg.finite()
        &&& self.cg.finite()
        &&& self.niandu.finite()
        &&& self.density.finite()
    }

    /// The bundle itself when all of it is finite, else an invalid-input
    /// failure.
    pub fn checked(self) -> (r: Result<PvtPoint, Failure>)
        ensures
            self.finite() ==> r == Ok::<PvtPoint, Failure>(self),
            !self.finite() ==> r == Err::<PvtPoint, Failure>(Failure::InvalidInput),
    {
        if self.z.is_finite() && self.bg.is_finite() && self.cg.is_finite()
            && self.niandu.is_finite() && self.density.is_finite() {
            Ok(self)
        } else {
            Err(Failure::InvalidInput)
        }
    }
}

/// Accepts the inputs of a single-point calculation: pseudo-critical
/// pressure, pseudo-critical temperature and pressure, all positive.
pub fn validate_point(pc: Double, tc: Double, p: Double) -> (r: Result<(), Failure>)
    ensures
        r.is_ok() <==> pc.positive() && tc.positive() && p.positive(),
        r.is_err() ==> r == Err::<(), Failure>(Failure::InvalidInput),
{
    if pc.is_positive() && tc.is_positive() && p.is_positive() {
        Ok(())
    } else {
        Err(Failure::InvalidInput)
    }
}

/// Accepts the inputs of a batch calculation.
pub fn validate_batch(pc: Double, tc: Double, pressures: &Vec<Double>) -> (r: Result<(), Failure>)
    ensures
        r.is_ok() <==> batch_accepted(pc, tc, pressures@),
        r.is_err() ==> r == Err::<(), Failure>(Failure::InvalidInput),
{
    if !pc.is_positive() || !tc.is_positive() || pressures.len() == 0 {
        return Err(Failure::InvalidInput);
    }
    let mut i: usize = 0;
    while i < pressures.len()
        invariant
            i <= pressures.len(),
            forall|j: int| 0 <= j < i ==> (#[trigger] pressures@[j]).positive(),
        decreases pressures.len() - i,
    {
        if !pressures[i].is_positive() {
            return Err(Failure::InvalidInput);
        }
        i = i + 1;
    }
    Ok(())
}

/// Lets a result out only if it is a finite number.
pub fn checked_output(value: Double) -> (r: Result<Double, Failure>)
    ensures
        value.finite() ==> r == Ok::<Double, Failure>(value),
        !value.finite() ==> r == Err::<Double, Failure>(Failure::InvalidInput),
{
    if value.is_finite() {
        Ok(value)
    } else {
        Err(Failure::InvalidInput)
    }
}

/// The answer to a login from the lookup of the credentials: granted when a
/// user matched, unauthorized when none did.
pub fn login_reply(lookup: Lookup) -> (r: Result<(), Failure>)
    ensures
        r == match lookup {
            Lookup::Failed => Err::<(), Failure>(Failure::Internal),
            Lookup::Rows(n) => if n == 0 {
                Err::<(), Failure>(Failure::Unauthorized)
            } else {
                Ok::<(), Failure>(())
            },
        },
{
    match lookup {
        Lookup::Failed => Err(Failure::Internal),
        Lookup::Rows(n) => if n == 0 {
            Err(Failure::Unauthorized)
        } else {
            Ok(())
        },
    }
}

/// The answer to a request for well data from the lookup of the well: the
/// number of records to send, or not-found when there is none.
pub fn well_data_reply(lookup: Lookup) -> (r: Result<usize, Failure>)
    ensures
        r == match lookup {
            Lookup::Failed => Err::<usize, Failure>(Failure::Internal),
            Lookup::Rows(n) => if n == 0 {
                Err::<usize, Failure>(Failure::NotFound)
            } else {
                Ok::<usize, Failure>(n)
            },
        },
{
    match lookup {
        Lookup::Failed => Err(Failure::Internal),
        Lookup::Rows(n) => if n == 0 {
            Err(Failure::NotFound)
        } else {
            Ok(n)
        },
    }
}

} // verus!
