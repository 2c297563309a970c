//! The screen's storage: a byte matrix of the `array2d` crate, seen through
//! the rows that it holds.
use array2d::Array2D;
use vstd::prelude::*;

verus! {

#[verifier::external_type_specification]
#[verifier::external_body]
#[verifier::reject_recursive_types(T)]
pub struct ExArray2D<T>(Array2D<T>);

#[verifier::external_type_specification]
#[verifier::external_body]
pub struct ExArray2DError(array2d::Error);

/// The rows of a byte matrix, top to bottom, each left to right.
pub uninterp spec fn matrix_rows(a: Array2D<u8>) -> Seq<Seq<u8>>;

/// Relies on `Array2D::filled_with`: `num_rows` rows of `num_columns` copies
/// of `element`. It allocates their product in one vector, which must fit.
#[verifier::external_body]
pub(crate) fn matrix_filled(element: u8, num_rows: usize, num_columns: usize) -> (r: Array2D<u8>)
    requires
        num_rows * num_columns <= isize::MAX,
    ensures
        matrix_rows(r) == Seq::new(num_rows as nat, |i: int| Seq::new(num_columns as nat, |j: int| element)),
{
    Array2D::filled_with(element, num_rows, num_columns)
}

/// Relies on `Array2D::get`: the element at `(row, column)`, or `None`
/// outside the matrix.
#[verifier::external_body]
pub(crate) fn matrix_get(a: &Array2D<u8>, row: usize, column: usize) -> (r: Option<u8>)
    ensures
        r == (if row < matrix_rows(*a).len() && column < matrix_rows(*a)[row as int].len() {
            Some(matrix_rows(*a)[row as int][column as int])
        } else {
            None::<u8>
        }),
{
    a.get(row, column).copied()
}

/// Relies on `Array2D::set`: inside the matrix it replaces one element and
/// returns `Ok`; outside it changes nothing and returns an error.
#[verifier::external_body]
pub(crate) fn matrix_set(a: &mut Array2D<u8>, row: usize, column: usize, element: u8) -> (r: Result<(), array2d::Error>)
    ensures
        row < matrix_rows(*old(a)).len() && column < matrix_rows(*old(a))[row as int].len() ==> {
            &&& r is Ok
            &&& matrix_rows(*final(a)) == matrix_rows(*old(a)).update(
                row as int,
                matrix_rows(*old(a))[row as int].update(column as int, element),
            )
        },
        !(row < matrix_rows(*old(a)).len() && column < matrix_rows(*old(a))[row as int].len()) ==> {
            &&& r is Err
            &&& matrix_rows(*final(a)) == matrix_rows(*old(a))
        },
{
    a.set(row, column, element)
}

/// Relies on `Array2D::as_rows`: a copy of the rows. It walks each row
/// through `row_iter`, which fails on a matrix without columns, so every
/// row must hold a cell.
#[verifier::external_body]
pub(crate) fn matrix_as_rows(a: &Array2D<u8>) -> (r: Vec<Vec<u8>>)
    requires
        forall|i: int| 0 <= i < matrix_rows(*a).len() ==> (#[trigger] matrix_rows(*a)[i]).len() > 0,
    ensures
        r.deep_view() == matrix_rows(*a),
{
    a.as_rows()
}

/// Relies on `Array2D::from_rows`: a matrix of the given rows when they all
/// have the length of the first, an error otherwise.
#[verifier::external_body]
pub(crate) fn matrix_from_rows(rows: &[Vec<u8>]) -> (r: Result<Array2D<u8>, array2d::Error>)
    ensures
        (forall|i: int| 0 <= i < rows@.len() ==> (#[trigger] rows@[i])@.len() == rows@[0]@.len()) <==> r is Ok,
        r is Ok ==> matrix_rows(r->Ok_0) == rows.deep_view(),
{
    Array2D::from_rows(rows)
}

} // verus!
