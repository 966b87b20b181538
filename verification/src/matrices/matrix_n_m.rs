//! Matrices of any number of rows and columns.

use crate::scalar::Scalar;
use vstd::prelude::*;

verus! {

/// A row, a column or an element was asked for that the matrix does not have.
#[derive(Debug)]
pub struct MatrixIndexError;

/// Two matrices do not have the shapes that an operation on them needs.
#[derive(Debug)]
pub struct MatrixArithmeticError;

/// A matrix of `height` rows and `width` columns, held row by row.
#[derive(Debug, Clone)]
pub struct MaxtrixNM {
    pub matrix: Vec<Vec<Scalar>>,
    pub width: usize,
    pub height: usize,
}

/// The element that `items`, read row by row, gives to column `x` of row `y`
/// in a matrix of `width` columns: positive zero where the items have run out.
pub open spec fn item_at(items: Seq<Scalar>, width: int, x: int, y: int) -> Scalar {
    if y * width + x < items.len() {
        items[y * width + x]
    } else {
        Scalar { bits: 0 }
    }
}

impl MaxtrixNM {
    /// There are `height` rows, each of `width` elements.
    pub open spec fn well_formed(&self) -> bool {
        &&& self.matrix@.len() == self.height
        &&& forall|y: int| 0 <= y < self.height ==> (#[trigger] self.matrix@[y])@.len() == self.width
    }

    /// The element in column `x` of row `y`.
    pub open spec fn at(&self, x: int, y: int) -> Scalar
        recommends
            0 <= x < self.width,
            0 <= y < self.height,
    {
        self.matrix@[y]@[x]
    }

    /// The matrix of the given shape whose elements are all positive zero.
    pub fn new_empty(width: usize, height: usize) -> (m: MaxtrixNM)
        ensures
            m.well_formed(),
            m.width == width,
            m.height == height,
            forall|x: int, y: int|
                0 <= x < width && 0 <= y < height ==> (#[trigger] m.at(x, y)).bits == 0,
    {
        MaxtrixNM::filled(width, height, &Vec::new())
    }

    /// The matrix of the given shape that holds `items` row by row. Elements
    /// for which no item is left are positive zero.
    pub fn new_from_items(width: usize, height: usize, items: Vec<Scalar>) -> (m: MaxtrixNM)
        requires
            items.len() <= width * height,
        ensures
            m.well_formed(),
            m.width == width,
            m.height == height,
            forall|x: int, y: int|
                0 <= x < width && 0 <= y < height ==> #[trigger] m.at(x, y) == item_at(
                    items@,
                    width as int,
                    x,
                    y,
                ),
    {
        MaxtrixNM::filled(width, height, &items)
    }

    fn filled(width: usize, height: usize, items: &Vec<Scalar>) -> (m: MaxtrixNM)
        ensures
            m.well_formed(),
            m.width == width,
            m.height == height,
            forall|x: int, y: int|
                0 <= x < width && 0 <= y < height ==> #[trigger] m.at(x, y) == item_at(
                    items@,
                    width as int,
                    x,
                    y,
                ),
    {
        let mut rows: Vec<Vec<Scalar>> = Vec::new();
        let mut next: usize = 0;
        let mut y: usize = 0;
        while y < height
            invariant
                y <= height,
                rows@.len() == y,
                next <= items.len(),
                next == items.len() || next == y * width,
                next <= y * width,
                forall|r: int| 0 <= r < y ==> (#[trigger] rows@[r])@.len() == width,
                forall|c: int, r: int|
                    0 <= c < width && 0 <= r < y ==> (#[trigger] rows@[r]@[c]) == item_at(
                        items@,
                        width as int,
                        c,
                        r,
                    ),
            decreases height - y,
        {
            let mut row: Vec<Scalar> = Vec::new();
            let mut x: usize = 0;
            while x < width
                invariant
                    x <= width,
                    y < height,
                    row@.len() == x,
                    next <= items.len(),
                    next == items.len() || next == y * width + x,
                    next <= y * width + x,
                    forall|c: int|
                        0 <= c < x ==> (#[trigger] row@[c]) == item_at(
                            items@,
                            width as int,
                            c,
                            y as int,
                        ),
                decreases width - x,
            {
                if next < items.len() {
                    row.push(items[next]);
                    next += 1;
                } else {
                    row.push(Scalar::zero());
                }
                x += 1;
            }
            assert(y * width + width == (y + 1) * width) by (nonlinear_arith);
            rows.push(row);
            y += 1;
        }
        MaxtrixNM { matrix: rows, width, height }
    }

    /// Row `index`, or the error where the matrix has no such row.
    pub fn get_row(&self, index: usize) -> (row: Result<Vec<Scalar>, MatrixIndexError>)
        requires
            self.well_formed(),
        ensures
            index >= self.height <==> row is Err,
            row matches Ok(found) ==> found@ == self.matrix@[index as int]@,
    {
        if index >= self.height {
            return Err(MatrixIndexError {  });
        }
        let source = &self.matrix[index];
        let mut found: Vec<Scalar> = Vec::new();
        let mut x: usize = 0;
        while x < self.width
            invariant
                x <= self.width,
                source@.len() == self.width,
                found@ == source@.take(x as int),
            decreases self.width - x,
        {
            found.push(source[x]);
            proof {
                assert(source@.take(x + 1) =~= source@.take(x as int).push(source@[x as int]));
            }
            x += 1;
        }
        proof {
            assert(source@.take(self.width as int) =~= source@);
        }
        Ok(found)
    }

    /// Column `index` from the first row to the last, or the error where the
    /// matrix has no such column.
    pub fn get_column(&self, index: usize) -> (column: Result<Vec<Scalar>, MatrixIndexError>)
        requires
            self.well_formed(),
        ensures
            index >= self.width <==> column is Err,
            column matches Ok(found) ==> {
                &&& found@.len() == self.height
                &&& forall|y: int| 0 <= y < self.height ==> #[trigger] found@[y] == self.at(index as int, y)
            },
    {
        if index >= self.width {
            return Err(MatrixIndexError {  });
        }
        let mut found: Vec<Scalar> = Vec::new();
        let mut y: usize = 0;
        while y < self.height
            invariant
                y <= self.height,
                index < self.width,
                self.well_formed(),
                found@.len() == y,
                forall|r: int| 0 <= r < y ==> #[trigger] found@[r] == self.at(index as int, r),
            decreases self.height - y,
        {
            let row = &self.matrix[y];
            found.push(row[index]);
            y += 1;
        }
        Ok(found)
    }

    /// The element in column `x` of row `y`, or the error where the matrix
    /// has no such element.
    pub fn get_element(&self, x: usize, y: usize) -> (element: Result<Scalar, MatrixIndexError>)
        requires
            self.well_formed(),
        ensures
            (x >= self.width || y >= self.height) <==> element is Err,
            element matches Ok(found) ==> found == self.at(x as int, y as int),
    {
        if x >= self.width || y >= self.height {
            return Err(MatrixIndexError {  });
        }
        let row = &self.matrix[y];
        Ok(row[x])
    }

    /// The shape of the sum or the difference of two matrices, as width and
    /// height: that of both, or the error where their shapes differ.
    pub fn sum_shape(&self, rhs: &MaxtrixNM) -> (shape: Result<(usize, usize), MatrixArithmeticError>)
        ensures
            (self.width != rhs.width || self.height != rhs.height) <==> shape is Err,
            shape matches Ok(found) ==> found == (self.width, self.height),
    {
        if self.width != rhs.width || self.height != rhs.height {
            return Err(MatrixArithmeticError {  });
        }
        Ok((self.width, self.height))
    }

    /// The shape of the product of two matrices, as width and height: the
    /// width of the right one and the height of the left one, or the error
    /// where the left one is not as wide as the right one is high.
    pub fn product_shape(&self, rhs: &MaxtrixNM) -> (shape: Result<
        (usize, usize),
        MatrixArithmeticError,
    >)
        ensures
            self.width != rhs.height <==> shape is Err,
            shape matches Ok(found) ==> found == (rhs.width, self.height),
    {
        if self.width != rhs.height {
            return Err(MatrixArithmeticError {  });
        }
        Ok((rhs.width, self.height))
    }
}

} // verus!
