//! The bare currency descriptor: code, numeric code, fraction digits,
//! and display name.

use vstd::prelude::*;

verus! {

/// An immutable currency descriptor.
///
/// `numeric_code` is the ISO-style numeric identifier (0 for non-ISO
/// tokens such as cryptocurrencies); `default_fraction_digits` is the
/// customary number of decimal places for amounts in this currency.
#[derive(Debug)]
pub struct CurrencyUnit {
    code: String,
    numeric_code: i32,
    default_fraction_digits: i32,
    display_name: String,
}

impl CurrencyUnit {
    /// What the descriptor holds, field by field.
    pub closed spec fn spec_code(&self) -> Seq<char> {
        self.code@
    }

    pub closed spec fn spec_numeric_code(&self) -> int {
        self.numeric_code as int
    }

    pub closed spec fn spec_fraction_digits(&self) -> int {
        self.default_fraction_digits as int
    }

    pub closed spec fn spec_display_name(&self) -> Seq<char> {
        self.display_name@
    }

    pub fn new(code: &str, numeric_code: i32, default_fraction_digits: i32, display_name: &str)
        -> (r: Self)
        ensures
            r.spec_code() == code@,
            r.spec_numeric_code() == numeric_code,
            r.spec_fraction_digits() == default_fraction_digits,
            r.spec_display_name() == display_name@,
    {
        Self {
            code: code.to_owned(),
            numeric_code,
            default_fraction_digits,
            display_name: display_name.to_owned(),
        }
    }

    pub fn get_code(&self) -> (r: &str)
        ensures
            r@ == self.spec_code(),
    {
        self.code.as_str()
    }

    pub fn get_numeric_code(&self) -> (r: i32)
        ensures
            r == self.spec_numeric_code(),
    {
        self.numeric_code
    }

    pub fn get_default_fraction_digits(&self) -> (r: i32)
        ensures
            r == self.spec_fraction_digits(),
    {
        self.default_fraction_digits
    }

    pub fn get_display_name(&self) -> (r: &str)
        ensures
            r@ == self.spec_display_name(),
    {
        self.display_name.as_str()
    }
}

impl Clone for CurrencyUnit {
    /// A clone is equal to the original, field for field.
    fn clone(&self) -> (r: Self)
        ensures
            r == *self,
    {
        Self {
            code: self.code.clone(),
            numeric_code: self.numeric_code,
            default_fraction_digits: self.default_fraction_digits,
            display_name: self.display_name.clone(),
        }
    }
}

impl PartialEq for CurrencyUnit {
    /// Descriptor equality: every field agrees.
    fn eq(&self, other: &Self) -> (r: bool) {
        self.code == other.code && self.numeric_code == other.numeric_code
            && self.default_fraction_digits == other.default_fraction_digits && self.display_name
            == other.display_name
    }
}

impl vstd::std_specs::cmp::PartialEqSpecImpl for CurrencyUnit {
    open spec fn obeys_eq_spec() -> bool {
        true
    }

    open spec fn eq_spec(&self, other: &Self) -> bool {
        &&& self.spec_code() == other.spec_code()
        &&& self.spec_numeric_code() == other.spec_numeric_code()
        &&& self.spec_fraction_digits() == other.spec_fraction_digits()
        &&& self.spec_display_name() == other.spec_display_name()
    }
}

} // verus!
