//! Pairing of command-line coordinates: the arguments after the mode token
//! come in `x y` pairs giving the initial live cells.

use vstd::prelude::*;

verus! {

/// Error for a coordinate list with an odd number of entries: coordinates
/// only come in `x y` pairs.
#[derive(Debug)]
pub struct OddCoordinateCountError;

/// Pairs up a flat list of coordinate values `x1 y1 x2 y2 ...` into points,
/// in order; a list of odd length is rejected as a whole.
pub fn pair_points(coords: &Vec<usize>) -> (r: Result<
    Vec<(usize, usize)>,
    OddCoordinateCountError,
>)
    ensures
        r is Ok <==> coords@.len() % 2 == 0,
        r matches Ok(points) ==> {
            &&& points@.len() == coords@.len() / 2
            &&& forall|j: int|
                0 <= j < points@.len() ==> points@[j] == (coords@[2 * j], coords@[2 * j + 1])
        },
{
    if coords.len() % 2 != 0 {
        return Err(OddCoordinateCountError);
    }
    let mut points: Vec<(usize, usize)> = Vec::new();
    let mut i: usize = 0;
    while i < coords.len()
        invariant
            i % 2 == 0,
            coords@.len() % 2 == 0,
            i <= coords@.len(),
            points@.len() == i / 2,
            forall|j: int|
                0 <= j < points@.len() ==> points@[j] == (coords@[2 * j], coords@[2 * j + 1]),
        decreases coords@.len() - i,
    {
        let x = coords[i];
        let y = coords[i + 1];
        points.push((x, y));
        i = i + 2;
    }
    Ok(points)
}

} // verus!
