//! Barcode values: validated digit data together with the printer's
//! symbology type code and the UPC-A check-digit computation.

use vstd::prelude::*;
use vstd::slice::{slice_index_get, slice_to_vec};
use crate::Error;

verus! {

/// Supported barcode types.
#[derive(Debug, Clone)]
pub enum Barcode {
    /// UPC-A barcode format; holds exactly 11 or 12 numeric digits.
    UPCA(Vec<u8>),
}

/// Whether a byte is an ASCII decimal digit.
pub open spec fn is_ascii_digit(b: u8) -> bool {
    48 <= b <= 57
}

/// Valid UPC-A data: exactly 11 or 12 ASCII digits.
pub open spec fn upca_data_valid(data: Seq<u8>) -> bool {
    &&& (data.len() == 11 || data.len() == 12)
    &&& forall|i: int| 0 <= i < data.len() ==> is_ascii_digit(#[trigger] data[i])
}

/// The UPC-A weighted sum of the first `n` digits: digits in even
/// (0-based) positions count three times, the others once.
pub open spec fn upca_weighted_sum(data: Seq<u8>, n: int) -> int
    decreases n,
{
    if n <= 0 {
        0
    } else {
        upca_weighted_sum(data, n - 1) + (if (n - 1) % 2 == 0 {
            3int
        } else {
            1int
        }) * (data[n - 1] - 48)
    }
}

/// The UPC-A check digit of 11 data digits: what brings the weighted
/// sum up to the next multiple of 10.
pub open spec fn spec_upca_check_digit(data: Seq<u8>) -> int {
    (10 - upca_weighted_sum(data, 11) % 10) % 10
}

impl Barcode {
    /// The digit data carried by the barcode.
    pub open spec fn spec_data(&self) -> Seq<u8> {
        match self {
            Barcode::UPCA(d) => d@,
        }
    }

    /// A barcode is well formed when it carries validated digit data.
    pub open spec fn wf(&self) -> bool {
        upca_data_valid(self.spec_data())
    }

    /// The barcode's check digit: the last digit when 12 were given,
    /// and the computed UPC-A check digit when 11 were given.
    pub open spec fn spec_check_digit(&self) -> int {
        if self.spec_data().len() == 12 {
            self.spec_data()[11] - 48
        } else {
            spec_upca_check_digit(self.spec_data())
        }
    }

    /// Create a new UPC-A barcode.
    ///
    /// UPC-A requires exactly 11 or 12 numeric digits (0-9). With 11
    /// digits, the check digit is computed when the barcode is encoded;
    /// with 12, the last given digit serves as the check digit.
    pub fn new_upca(data: &[u8]) -> (r: Result<Barcode, Error>)
        ensures
            match r {
                Ok(b) => {
                    &&& upca_data_valid(data@)
                    &&& b.spec_data() == data@
                    &&& b.wf()
                },
                Err(e) => {
                    &&& !upca_data_valid(data@)
                    &&& (if data@.len() != 11 && data@.len() != 12 {
                        e == Error::InvalidBarcodeLength
                    } else {
                        e == Error::InvalidBarcodeCharacters
                    })
                },
            },
    {
        // Check length - UPC-A requires 11 or 12 digits.
        if data.len() != 11 && data.len() != 12 {
            return Err(Error::InvalidBarcodeLength);
        }
        // Check that all characters are digits.
        let n: usize = data.len();
        let mut i: usize = 0;
        while i < n
            invariant
                i <= n,
                n == data@.len(),
                data@.len() == 11 || data@.len() == 12,
                forall|j: int| 0 <= j < i ==> is_ascii_digit(#[trigger] data@[j]),
            decreases n - i,
        {
            let b = *slice_index_get(data, i);
            if b < 48 || b > 57 {
                proof {
                    assert(!(forall|j: int|
                        0 <= j < data@.len() ==> is_ascii_digit(#[trigger] data@[j]))) by {
                        assert(!is_ascii_digit(data@[i as int]));
                    }
                }
                return Err(Error::InvalidBarcodeCharacters);
            }
            i = i + 1;
        }
        Ok(Barcode::UPCA(slice_to_vec(data)))
    }

    /// Returns the raw data for the barcode.
    pub fn data(&self) -> (r: &[u8])
        ensures
            r@ == self.spec_data(),
    {
        match self {
            Barcode::UPCA(data) => data.as_slice(),
        }
    }

    /// Returns the printer-specific barcode type code.
    pub fn barcode_type(&self) -> (r: u8)
        ensures
            r == 65,
    {
        match self {
            Barcode::UPCA(_) => 65,  // UPC-A type code
        }
    }

    /// Returns the barcode's check digit as a value from 0 to 9: for 12
    /// given digits the last one, for 11 the computed UPC-A check digit.
    pub fn check_digit(&self) -> (r: u8)
        requires
            self.wf(),
        ensures
            r == self.spec_check_digit(),
    {
        match self {
            Barcode::UPCA(d) => {
                if d.len() == 12 {
                    d[11] - 48
                } else {
                    let mut sum: u32 = 0;
                    let mut i: usize = 0;
                    while i < 11
                        invariant
                            i <= 11,
                            d@.len() == 11,
                            upca_data_valid(d@),
                            sum == upca_weighted_sum(d@, i as int),
                            sum <= 27 * i,
                        decreases 11 - i,
                    {
                        let digit: u32 = (d[i] - 48) as u32;
                        if i % 2 == 0 {
                            sum = sum + 3 * digit;
                        } else {
                            sum = sum + digit;
                        }
                        i = i + 1;
                    }
                    ((10 - sum % 10) % 10) as u8
                }
            },
        }
    }
}

} // verus!
