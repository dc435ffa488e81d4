//! A column of values held as their display texts, and the selection of its
//! rows by a mask.

use crate::cell::{decimal, decimal_string};
use crate::grid::StrValue;
use vstd::prelude::*;
use vstd::string::*;

verus! {

/// A sequence of booleans, each of which may be missing.
#[derive(Debug)]
pub struct BooleanArray {
    pub values: Vec<Option<bool>>,
}

impl View for BooleanArray {
    type V = Seq<Option<bool>>;

    open spec fn view(&self) -> Seq<Option<bool>> {
        self.values@
    }
}

impl BooleanArray {
    pub fn new(values: Vec<Option<bool>>) -> (mask: BooleanArray)
        ensures
            mask@ == values@,
    {
        BooleanArray { values }
    }

    pub fn len(&self) -> (n: usize)
        ensures
            n == self@.len(),
    {
        self.values.len()
    }

    /// The boolean at `idx`; `None` where it is missing or `idx` is past the end.
    pub fn get(&self, idx: usize) -> (value: Option<bool>)
        ensures
            value == if idx < self@.len() {
                self@[idx as int]
            } else {
                None
            },
    {
        if idx < self.values.len() {
            self.values[idx]
        } else {
            None
        }
    }
}

/// Why a selection was refused.
#[derive(Debug)]
pub enum SeriesError {
    /// The arguments do not go together; the text says how.
    ValueError(String),
}

impl SeriesError {
    /// The text of the error.
    pub fn message(&self) -> (text: String)
        ensures
            self matches SeriesError::ValueError(m) && text@ == m@,
    {
        match self {
            SeriesError::ValueError(m) => m.clone(),
        }
    }
}

/// A column of values, each held as the text that displays it.
#[derive(Debug)]
pub struct Series {
    pub values: Vec<String>,
}

impl View for Series {
    type V = Seq<Seq<char>>;

    open spec fn view(&self) -> Seq<Seq<char>> {
        self.values.deep_view()
    }
}

/// The values at the positions where the mask holds `true`, in their order.
/// A missing boolean selects nothing.
pub open spec fn kept(values: Seq<Seq<char>>, mask: Seq<Option<bool>>) -> Seq<Seq<char>>
    decreases values.len(),
{
    if values.len() == 0 {
        Seq::empty()
    } else if mask.last() == Some(true) {
        kept(values.drop_last(), mask.drop_last()).push(values.last())
    } else {
        kept(values.drop_last(), mask.drop_last())
    }
}

/// What a mask selects: a mask of a single boolean decides for all values at
/// once, a mask as long as the values decides for each.
pub open spec fn filtered(values: Seq<Seq<char>>, mask: Seq<Option<bool>>) -> Seq<Seq<char>> {
    if mask.len() == 1 {
        if mask[0] == Some(true) {
            values
        } else {
            Seq::empty()
        }
    } else {
        kept(values, mask)
    }
}

/// Whether a mask of `mask_len` booleans can be applied to `series_len` values.
pub open spec fn mask_fits(series_len: nat, mask_len: nat) -> bool {
    mask_len == 1 || mask_len == series_len
}

/// The text of the error for a mask that does not fit.
pub open spec fn length_mismatch_text(series_len: nat, mask_len: nat) -> Seq<char> {
    let series = "Lengths for filter do not match, Series "@ + decimal(series_len);
    series + " vs mask "@ + decimal(mask_len)
}

impl Series {
    pub fn new(values: Vec<String>) -> (series: Series)
        ensures
            series@ == values.deep_view(),
    {
        Series { values }
    }

    pub fn len(&self) -> (n: usize)
        ensures
            n == self@.len(),
    {
        self.values.len()
    }

    /// The first `num` values, or all of them where there are fewer.
    pub fn head(&self, num: usize) -> (out: Series)
        ensures
            out@ == self@.take(
                if num <= self@.len() {
                    num as int
                } else {
                    self@.len() as int
                },
            ),
    {
        let n: usize = if num <= self.values.len() {
            num
        } else {
            self.values.len()
        };
        let mut values: Vec<String> = Vec::new();
        let mut i: usize = 0;
        while i < n
            invariant
                n <= self.values@.len(),
                i <= n,
                values@.len() == i,
                forall|k: int| 0 <= k < i ==> (#[trigger] values@[k])@ == self.values@[k]@,
            decreases n - i,
        {
            values.push(self.values[i].clone());
            i += 1;
        }
        Series { values }
    }

    /// Selects the rows of the series by `mask`.
    ///
    /// A mask of one boolean keeps every value where it is `true` and none
    /// otherwise. A mask as long as the series keeps the values at the
    /// positions where it is `true`. Any other mask is refused with a
    /// `ValueError` that names both lengths.
    pub fn filter(&self, mask: &BooleanArray) -> (result: Result<Series, SeriesError>)
        ensures
            result is Ok <==> mask_fits(self@.len(), mask@.len()),
            result matches Ok(out) ==> out@ == filtered(self@, mask@),
            result matches Err(SeriesError::ValueError(text)) ==> text@ == length_mismatch_text(
                self@.len(),
                mask@.len(),
            ),
    {
        let n = self.len();
        let m = mask.len();
        if m == 1 {
            if mask.get(0) == Some(true) {
                Ok(self.head(n))
            } else {
                Ok(self.head(0))
            }
        } else if n == m {
            let mut values: Vec<String> = Vec::new();
            let mut i: usize = 0;
            while i < n
                invariant
                    n == self.values@.len(),
                    n == mask@.len(),
                    i <= n,
                    values.deep_view() == kept(self@.take(i as int), mask@.take(i as int)),
                decreases n - i,
            {
                proof {
                    assert(self@.take(i + 1).drop_last() =~= self@.take(i as int));
                    assert(mask@.take(i + 1).drop_last() =~= mask@.take(i as int));
                }
                if mask.get(i) == Some(true) {
                    values.push(self.values[i].clone());
                }
                i += 1;
            }
            assert(self@.take(n as int) =~= self@);
            assert(mask@.take(n as int) =~= mask@);
            Ok(Series { values })
        } else {
            let mut text = String::from_str("Lengths for filter do not match, Series ");
            text.append(decimal_string(n).as_str());
            text.append(" vs mask ");
            text.append(decimal_string(m).as_str());
            Err(SeriesError::ValueError(text))
        }
    }
}

impl StrValue for Series {
    open spec fn text_at(&self, idx: int) -> Seq<char> {
        self@[idx]
    }

    open spec fn row_count(&self) -> nat {
        self@.len()
    }

    fn str_value(&self, idx: usize) -> (s: String) {
        self.values[idx].clone()
    }
}

} // verus!
