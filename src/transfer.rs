use vstd::prelude::*;

use crate::error::VecToArrayError;

verus! {

/// Relies on std's `TryFrom<Vec<T>> for [T; N]`: when the vector holds exactly
/// `N` elements they are moved, in order, into the array; otherwise the vector
/// comes back unchanged in `Err`.
#[verifier::external_body]
fn relocate<T, const N: usize>(v: Vec<T>) -> (r: Result<[T; N], Vec<T>>)
    ensures
        r is Ok <==> v@.len() == N,
        r matches Ok(a) ==> a@ == v@,
        r matches Err(w) ==> w@ == v@,
{
    <[T; N]>::try_from(v)
}

/// Moves the elements of `v` into an array of exactly `N` elements.
///
/// The length is checked before any element moves. When it is `N` the result
/// holds the vector's elements in their order; otherwise no element moves,
/// the vector is dropped, and the error records both lengths.
pub fn try_vec_to_array<T, const N: usize>(v: Vec<T>) -> (r: Result<[T; N], VecToArrayError>)
    ensures
        v@.len() == N ==> (r matches Ok(a) && a@ == v@),
        v@.len() != N ==> r == Err::<[T; N], VecToArrayError>(
            VecToArrayError::SizeMismatch { expected: N, found: v@.len() as usize },
        ),
{
    let found = v.len();
    if found != N {
        return Err(VecToArrayError::SizeMismatch { expected: N, found });
    }
    match relocate::<T, N>(v) {
        Ok(a) => Ok(a),
        // Unreachable after the length check; kept so that no path panics.
        Err(w) => Err(VecToArrayError::SizeMismatch { expected: N, found: w.len() }),
    }
}

/// Moves the elements of `v`, which must hold exactly `N` of them, into an
/// array, in their order.
pub fn vec_to_array<T, const N: usize>(v: Vec<T>) -> (a: [T; N])
    requires
        v@.len() == N,
    ensures
        a@ == v@,
{
    match relocate::<T, N>(v) {
        Ok(a) => a,
        Err(_) => unreached(),
    }
}

} // verus!
